use process_monitor::outcome::{ExitReport, ProcessOutcome, TerminationKind};
use process_monitor::policy::{RestartDecision, StopOnExitCode, NeverStop};
use process_monitor::supervisor::{Supervisor, SupervisorAction, SupervisorState};

fn exit_with_code(code: i32) -> ProcessOutcome {
    ProcessOutcome::Exited(ExitReport {
        kind: TerminationKind::ExitCode(code),
        stdout: String::new(),
        stderr: String::new(),
    })
}

#[test]
fn normal_exit_restarts_after_short_backoff() {
    let mut m = Supervisor::new(NeverStop);
    assert_eq!(m.state(), SupervisorState::Idle);

    let a = m.on_start(true);
    assert_eq!(a, SupervisorAction::LaunchChild);
    assert_eq!(m.state(), SupervisorState::Running);

    let a = m.on_child_done(&exit_with_code(0));
    assert_eq!(a, SupervisorAction::CheckShutdown);
    assert_eq!(
        m.state(),
        SupervisorState::Deciding(RestartDecision::RestartAfter(2000))
    );

    let a = m.on_decide(true);
    assert_eq!(a, SupervisorAction::SleepFor(2000));
    assert_eq!(m.state(), SupervisorState::Sleeping(2000));

    let a = m.on_sleep_elapsed(true);
    assert_eq!(a, SupervisorAction::LaunchChild);
    assert_eq!(m.state(), SupervisorState::Running);
}

#[test]
fn launch_failure_retries_after_long_backoff() {
    let mut m = Supervisor::new(NeverStop);
    m.on_start(true);

    let outcome = ProcessOutcome::LaunchFailure(String::from("permission denied"));
    let a = m.on_child_done(&outcome);
    assert_eq!(a, SupervisorAction::CheckShutdown);
    assert_eq!(
        m.state(),
        SupervisorState::Deciding(RestartDecision::RestartAfter(5000))
    );

    let a = m.on_decide(true);
    assert_eq!(a, SupervisorAction::SleepFor(5000));
    assert_eq!(m.state(), SupervisorState::Sleeping(5000));

    let a = m.on_sleep_elapsed(true);
    assert_eq!(a, SupervisorAction::LaunchChild);
}

#[test]
fn shutdown_during_sleep_stops_without_another_attempt() {
    let mut m = Supervisor::new(NeverStop);
    m.on_start(true);
    m.on_child_done(&exit_with_code(0));
    m.on_decide(true);
    assert_eq!(m.state(), SupervisorState::Sleeping(2000));

    let a = m.on_sleep_elapsed(false);
    assert_eq!(a, SupervisorAction::Exit);
    assert_eq!(m.state(), SupervisorState::Stopped);
}

#[test]
fn shutdown_before_start_stops_without_any_attempt() {
    let mut m = Supervisor::new(NeverStop);
    let a = m.on_start(false);
    assert_eq!(a, SupervisorAction::Exit);
    assert_eq!(m.state(), SupervisorState::Stopped);
}

#[test]
fn shutdown_while_deciding_stops_despite_restart_decision() {
    let mut m = Supervisor::new(NeverStop);
    m.on_start(true);
    m.on_child_done(&exit_with_code(7));
    assert_eq!(
        m.state(),
        SupervisorState::Deciding(RestartDecision::RestartAfter(2000))
    );

    let a = m.on_decide(false);
    assert_eq!(a, SupervisorAction::Exit);
    assert_eq!(m.state(), SupervisorState::Stopped);
}

#[test]
fn stop_condition_ends_supervision() {
    let mut m = Supervisor::new(StopOnExitCode { code: 99 });
    m.on_start(true);

    let a = m.on_child_done(&exit_with_code(99));
    assert_eq!(a, SupervisorAction::CheckShutdown);
    assert_eq!(m.state(), SupervisorState::Deciding(RestartDecision::Stop));

    let a = m.on_decide(true);
    assert_eq!(a, SupervisorAction::Exit);
    assert_eq!(m.state(), SupervisorState::Stopped);
}

#[test]
fn non_matching_exit_code_keeps_restarting() {
    let mut m = Supervisor::new(StopOnExitCode { code: 99 });
    m.on_start(true);

    m.on_child_done(&exit_with_code(1));
    assert_eq!(
        m.state(),
        SupervisorState::Deciding(RestartDecision::RestartAfter(2000))
    );

    let a = m.on_decide(true);
    assert_eq!(a, SupervisorAction::SleepFor(2000));
}

#[test]
fn abnormal_termination_restarts_after_short_backoff() {
    let mut m = Supervisor::new(NeverStop);
    m.on_start(true);

    let outcome = ProcessOutcome::Exited(ExitReport {
        kind: TerminationKind::Abnormal,
        stdout: String::from("partial output"),
        stderr: String::new(),
    });
    m.on_child_done(&outcome);
    assert_eq!(
        m.state(),
        SupervisorState::Deciding(RestartDecision::RestartAfter(2000))
    );
}
