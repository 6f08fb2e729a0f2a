use vstd::prelude::*;
use crate::outcome::ProcessOutcome;
use crate::policy::{decide, spec_decide, spec_stops, RestartDecision, StopCondition};

verus! {

/// The states of the supervision loop.
#[derive(Clone, Copy, PartialEq, Eq, Structural, Debug)]
pub enum SupervisorState {
    /// Before the first attempt.
    Idle,
    /// A child attempt is in flight.
    Running,
    /// An attempt finished; its restart decision waits for the shutdown
    /// signal to be consulted.
    Deciding(RestartDecision),
    /// Waiting out a backoff of this many milliseconds before the next
    /// attempt.
    Sleeping(u64),
    /// Supervision has ended. Terminal.
    Stopped,
}

/// What the driver of the loop must do next after reporting an event.
#[derive(Clone, Copy, PartialEq, Eq, Structural, Debug)]
pub enum SupervisorAction {
    /// Spawn the target, wait for it, and report the outcome.
    LaunchChild,
    /// Read the shutdown signal and report its answer to the deciding step.
    CheckShutdown,
    /// Sleep for this many milliseconds, then report that the backoff
    /// elapsed.
    SleepFor(u64),
    /// Supervision is over; return to the caller.
    Exit,
}

/// What the driver reports into the machine. Where a step consults the
/// shutdown signal, the event carries the signal's answer: `continue_ok`
/// is what `ShutdownFlag::should_continue` returned at that moment.
pub enum SupervisorEvent {
    /// Supervision begins.
    Start { continue_ok: bool },
    /// The attempt in flight finished with this outcome.
    ChildDone(ProcessOutcome),
    /// The shutdown signal was read while a restart decision was pending.
    ShutdownChecked { continue_ok: bool },
    /// The backoff sleep elapsed.
    SleepElapsed { continue_ok: bool },
}

/// The machine's transition function: from a state and an event to the next
/// state and the action the driver must perform. An event that does not
/// belong to the state leaves the state unchanged and asks for nothing.
pub open spec fn spec_step<P: StopCondition>(
    policy: P,
    state: SupervisorState,
    event: SupervisorEvent,
) -> (SupervisorState, Option<SupervisorAction>) {
    match (state, event) {
        (SupervisorState::Idle, SupervisorEvent::Start { continue_ok }) => if continue_ok {
            (SupervisorState::Running, Some(SupervisorAction::LaunchChild))
        } else {
            (SupervisorState::Stopped, Some(SupervisorAction::Exit))
        },
        (SupervisorState::Running, SupervisorEvent::ChildDone(outcome)) => (
            SupervisorState::Deciding(spec_decide(outcome, spec_stops(policy, outcome))),
            Some(SupervisorAction::CheckShutdown),
        ),
        (SupervisorState::Deciding(d), SupervisorEvent::ShutdownChecked { continue_ok }) => if !continue_ok {
            (SupervisorState::Stopped, Some(SupervisorAction::Exit))
        } else {
            match d {
                RestartDecision::Stop => (SupervisorState::Stopped, Some(SupervisorAction::Exit)),
                RestartDecision::RestartAfter(ms) => (
                    SupervisorState::Sleeping(ms),
                    Some(SupervisorAction::SleepFor(ms)),
                ),
            }
        },
        (SupervisorState::Sleeping(_), SupervisorEvent::SleepElapsed { continue_ok }) => if continue_ok {
            (SupervisorState::Running, Some(SupervisorAction::LaunchChild))
        } else {
            (SupervisorState::Stopped, Some(SupervisorAction::Exit))
        },
        _ => (state, None),
    }
}

/// The supervision loop's core: the current state together with the restart
/// policy. The driver feeds it one event at a time and performs the action
/// each step returns; the machine itself does no process work.
pub struct Supervisor<P: StopCondition> {
    policy: P,
    state: SupervisorState,
}

impl<P: StopCondition> Supervisor<P> {
    /// The current state.
    pub closed spec fn state_spec(&self) -> SupervisorState {
        self.state
    }

    /// The policy the machine was built with.
    pub closed spec fn policy_spec(&self) -> P {
        self.policy
    }

    /// A new machine starts idle.
    pub fn new(policy: P) -> (s: Self)
        ensures
            s.state_spec() == SupervisorState::Idle,
            s.policy_spec() == policy,
    {
        Supervisor { policy, state: SupervisorState::Idle }
    }

    /// Read the current state.
    pub fn state(&self) -> (st: SupervisorState)
        ensures
            st == self.state_spec(),
    {
        self.state
    }

    /// Begin supervision. `continue_ok` is the shutdown signal's answer,
    /// read just before the first attempt would start.
    pub fn on_start(&mut self, continue_ok: bool) -> (a: SupervisorAction)
        requires
            old(self).state_spec() == SupervisorState::Idle,
        ensures
            final(self).policy_spec() == old(self).policy_spec(),
            (final(self).state_spec(), Some(a)) == spec_step(
                old(self).policy_spec(),
                old(self).state_spec(),
                SupervisorEvent::Start { continue_ok },
            ),
    {
        if continue_ok {
            self.state = SupervisorState::Running;
            SupervisorAction::LaunchChild
        } else {
            self.state = SupervisorState::Stopped;
            SupervisorAction::Exit
        }
    }

    /// The attempt in flight finished: record the restart policy's decision
    /// and ask the driver to consult the shutdown signal.
    pub fn on_child_done(&mut self, outcome: &ProcessOutcome) -> (a: SupervisorAction)
        requires
            old(self).state_spec() == SupervisorState::Running,
        ensures
            final(self).policy_spec() == old(self).policy_spec(),
            (final(self).state_spec(), Some(a)) == spec_step(
                old(self).policy_spec(),
                old(self).state_spec(),
                SupervisorEvent::ChildDone(*outcome),
            ),
    {
        let d = decide(&self.policy, outcome);
        self.state = SupervisorState::Deciding(d);
        SupervisorAction::CheckShutdown
    }

    /// Resolve a pending restart decision against the shutdown signal's
    /// answer: stop if the signal no longer permits continuation or the
    /// decision was to stop; otherwise sleep out the decision's backoff.
    pub fn on_decide(&mut self, continue_ok: bool) -> (a: SupervisorAction)
        requires
            old(self).state_spec() is Deciding,
        ensures
            final(self).policy_spec() == old(self).policy_spec(),
            (final(self).state_spec(), Some(a)) == spec_step(
                old(self).policy_spec(),
                old(self).state_spec(),
                SupervisorEvent::ShutdownChecked { continue_ok },
            ),
    {
        let d = match self.state {
            SupervisorState::Deciding(d) => d,
            _ => RestartDecision::Stop,  // unreachable: the state is Deciding
        };
        if !continue_ok {
            self.state = SupervisorState::Stopped;
            SupervisorAction::Exit
        } else {
            match d {
                RestartDecision::Stop => {
                    self.state = SupervisorState::Stopped;
                    SupervisorAction::Exit
                },
                RestartDecision::RestartAfter(ms) => {
                    self.state = SupervisorState::Sleeping(ms);
                    SupervisorAction::SleepFor(ms)
                },
            }
        }
    }

    /// The backoff elapsed: start the next attempt if the shutdown signal
    /// still permits it, otherwise stop without another attempt.
    pub fn on_sleep_elapsed(&mut self, continue_ok: bool) -> (a: SupervisorAction)
        requires
            old(self).state_spec() is Sleeping,
        ensures
            final(self).policy_spec() == old(self).policy_spec(),
            (final(self).state_spec(), Some(a)) == spec_step(
                old(self).policy_spec(),
                old(self).state_spec(),
                SupervisorEvent::SleepElapsed { continue_ok },
            ),
    {
        if continue_ok {
            self.state = SupervisorState::Running;
            SupervisorAction::LaunchChild
        } else {
            self.state = SupervisorState::Stopped;
            SupervisorAction::Exit
        }
    }
}

/// Stopped is terminal: no event moves the machine out of it, and no
/// further action is asked of the driver.
pub proof fn lemma_stopped_is_terminal<P: StopCondition>(policy: P, event: SupervisorEvent)
    ensures
        spec_step(policy, SupervisorState::Stopped, event)
            == (SupervisorState::Stopped, None::<SupervisorAction>),
{
}

/// The state a run reaches after the first `n` of a sequence of events,
/// starting from `state`.
pub open spec fn spec_state_at<P: StopCondition>(
    policy: P,
    state: SupervisorState,
    events: Seq<SupervisorEvent>,
    n: int,
) -> SupervisorState
    decreases n,
{
    if n <= 0 {
        state
    } else {
        spec_step(policy, spec_state_at(policy, state, events, n - 1), events[n - 1]).0
    }
}

/// Whether this event reports that the shutdown signal was activated.
pub open spec fn event_denies_continue(event: SupervisorEvent) -> bool {
    match event {
        SupervisorEvent::Start { continue_ok } => !continue_ok,
        SupervisorEvent::ChildDone(_) => false,
        SupervisorEvent::ShutdownChecked { continue_ok } => !continue_ok,
        SupervisorEvent::SleepElapsed { continue_ok } => !continue_ok,
    }
}

/// Whether this event reports a child exit on which the policy's stop
/// predicate matched.
pub open spec fn event_stops_by_policy<P: StopCondition>(policy: P, event: SupervisorEvent) -> bool {
    event matches SupervisorEvent::ChildDone(outcome) && spec_stops(policy, outcome)
}

/// A run whose events never report the shutdown signal as activated and
/// never report an exit that the stop predicate matches can reach neither
/// the Stopped state nor a pending stop decision.
proof fn lemma_no_cause_no_stop<P: StopCondition>(
    policy: P,
    events: Seq<SupervisorEvent>,
    n: int,
)
    requires
        0 <= n <= events.len(),
        forall|i: int| 0 <= i < n ==> !event_denies_continue(#[trigger] events[i]),
        forall|i: int| 0 <= i < n ==> !event_stops_by_policy(policy, #[trigger] events[i]),
    ensures
        spec_state_at(policy, SupervisorState::Idle, events, n) != SupervisorState::Stopped,
        spec_state_at(policy, SupervisorState::Idle, events, n)
            != SupervisorState::Deciding(RestartDecision::Stop),
    decreases n,
{
    if n > 0 {
        lemma_no_cause_no_stop(policy, events, n - 1);
    }
}

/// The loop never stops for any other reason: whatever the sequence of
/// child outcomes and signal readings, a run from Idle reaches Stopped only
/// if some event reported the shutdown signal as activated, or some child
/// exit matched the policy's stop predicate.
pub proof fn lemma_stops_only_by_signal_or_policy<P: StopCondition>(
    policy: P,
    events: Seq<SupervisorEvent>,
    n: int,
)
    requires
        0 <= n <= events.len(),
        spec_state_at(policy, SupervisorState::Idle, events, n) == SupervisorState::Stopped,
    ensures
        exists|i: int| 0 <= i < n && (event_denies_continue(#[trigger] events[i])
            || event_stops_by_policy(policy, events[i])),
{
    if !(exists|i: int| 0 <= i < n && (event_denies_continue(#[trigger] events[i])
        || event_stops_by_policy(policy, events[i])))
    {
        assert(forall|i: int| 0 <= i < n ==> !event_denies_continue(#[trigger] events[i]));
        assert(forall|i: int| 0 <= i < n ==> !event_stops_by_policy(policy, #[trigger] events[i]));
        lemma_no_cause_no_stop(policy, events, n);
    }
}

} // verus!
