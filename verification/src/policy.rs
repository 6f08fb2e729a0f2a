use vstd::prelude::*;
use crate::outcome::{ExitReport, ProcessOutcome, TerminationKind};

verus! {

/// Backoff before retrying after a normal exit, in milliseconds.
pub const SHORT_BACKOFF_MS: u64 = 2000;

/// Backoff before retrying after a launch failure, in milliseconds. Launch
/// failures are often transient environment issues, so the pause is longer
/// to avoid a busy failure loop.
pub const LONG_BACKOFF_MS: u64 = 5000;

/// What the restart policy decides after one attempt.
#[derive(Clone, Copy, PartialEq, Eq, Structural, Debug)]
pub enum RestartDecision {
    /// Start the child again after this many milliseconds.
    RestartAfter(u64),
    /// End supervision.
    Stop,
}

/// An extensible stop condition: a pure predicate over a termination report
/// (exit code and captured output) that ends supervision when it returns
/// true. The default policy, `NeverStop`, defines no stop conditions.
pub trait StopCondition: Sized {
    /// The predicate itself, at the specification level.
    spec fn stop_spec(&self, report: ExitReport) -> bool;

    /// Whether supervision should end after this exit.
    fn should_stop(&self, report: &ExitReport) -> (r: bool)
        ensures
            r == self.stop_spec(*report),
    ;
}

/// The default policy: no stop conditions; every exit leads to a restart.
pub struct NeverStop;

impl StopCondition for NeverStop {
    open spec fn stop_spec(&self, report: ExitReport) -> bool {
        false
    }

    fn should_stop(&self, report: &ExitReport) -> (r: bool) {
        false
    }
}

/// A policy that ends supervision when the child exits with one specific
/// exit code.
pub struct StopOnExitCode {
    pub code: i32,
}

impl StopCondition for StopOnExitCode {
    open spec fn stop_spec(&self, report: ExitReport) -> bool {
        report.kind == TerminationKind::ExitCode(self.code)
    }

    fn should_stop(&self, report: &ExitReport) -> (r: bool) {
        match report.kind {
            TerminationKind::ExitCode(c) => c == self.code,
            TerminationKind::Abnormal => false,
        }
    }
}

/// Whether `marker` occurs in `text` as a contiguous run of characters.
pub open spec fn spec_contains_marker(text: Seq<char>, marker: Seq<char>) -> bool {
    exists|i: int|
        0 <= i && i + marker.len() <= text.len() && #[trigger] text.subrange(i, i + marker.len())
            == marker
}

/// Whether `marker` starts at character position `at` of `text`.
fn matches_at(text: &str, marker: &str, at: usize) -> (r: bool)
    requires
        at + marker@.len() <= text@.len(),
    ensures
        r == (text@.subrange(at as int, at as int + marker@.len()) == marker@),
{
    let n = text.unicode_len();
    let m = marker.unicode_len();
    let mut j: usize = 0;
    while j < m
        invariant
            j <= m,
            n == text@.len(),
            m == marker@.len(),
            at + m <= n,
            forall|k: int| 0 <= k < j ==> text@[at + k] == marker@[k],
        decreases m - j,
    {
        if text.get_char(at + j) != marker.get_char(j) {
            assert(text@.subrange(at as int, at as int + marker@.len())[j as int]
                == text@[at + j]);
            return false;
        }
        j += 1;
    }
    assert(text@.subrange(at as int, at as int + marker@.len()) =~= marker@);
    true
}

/// Whether `marker` occurs anywhere in `text`. An empty marker occurs in
/// every text.
pub fn contains_marker(text: &str, marker: &str) -> (r: bool)
    ensures
        r == spec_contains_marker(text@, marker@),
{
    let n = text.unicode_len();
    let m = marker.unicode_len();
    if m > n {
        return false;
    }
    if m == 0 {
        assert(text@.subrange(0, 0 + marker@.len() as int) =~= marker@);
        return true;
    }
    let mut i: usize = 0;
    while i <= n - m
        invariant
            0 < m <= n,
            n == text@.len(),
            m == marker@.len(),
            i <= n - m + 1,
            forall|k: int|
                0 <= k < i ==> #[trigger] text@.subrange(k, k + marker@.len()) != marker@,
        decreases n - m + 1 - i,
    {
        if matches_at(text, marker, i) {
            return true;
        }
        i += 1;
    }
    false
}

/// A policy that ends supervision when a marker string appears in the
/// child's captured standard output or standard error.
pub struct StopOnOutputMarker {
    pub marker: String,
}

impl StopCondition for StopOnOutputMarker {
    open spec fn stop_spec(&self, report: ExitReport) -> bool {
        spec_contains_marker(report.stdout@, self.marker@) || spec_contains_marker(
            report.stderr@,
            self.marker@,
        )
    }

    fn should_stop(&self, report: &ExitReport) -> (r: bool) {
        contains_marker(report.stdout.as_str(), self.marker.as_str()) || contains_marker(
            report.stderr.as_str(),
            self.marker.as_str(),
        )
    }
}

/// Whether the policy's stop predicate ends supervision for this outcome.
/// A launch failure never meets a stop condition: there is no termination
/// report to evaluate.
pub open spec fn spec_stops<P: StopCondition>(policy: P, outcome: ProcessOutcome) -> bool {
    match outcome {
        ProcessOutcome::Exited(report) => policy.stop_spec(report),
        ProcessOutcome::LaunchFailure(_) => false,
    }
}

/// What the restart policy decides for an outcome whose stop predicate
/// evaluated to `stop`: a launch failure is retried after the long backoff;
/// a normal exit is retried after the short backoff unless the stop
/// predicate matched.
pub open spec fn spec_decide(outcome: ProcessOutcome, stop: bool) -> RestartDecision {
    match outcome {
        ProcessOutcome::LaunchFailure(_) => RestartDecision::RestartAfter(LONG_BACKOFF_MS),
        ProcessOutcome::Exited(_) => if stop {
            RestartDecision::Stop
        } else {
            RestartDecision::RestartAfter(SHORT_BACKOFF_MS)
        },
    }
}

/// Decide whether supervision continues after one attempt. The decision is
/// pure: it depends on nothing but the outcome and the policy's predicate.
pub fn decide<P: StopCondition>(policy: &P, outcome: &ProcessOutcome) -> (d: RestartDecision)
    ensures
        d == spec_decide(*outcome, spec_stops(*policy, *outcome)),
{
    match outcome {
        ProcessOutcome::LaunchFailure(_) => RestartDecision::RestartAfter(LONG_BACKOFF_MS),
        ProcessOutcome::Exited(report) => {
            if policy.should_stop(report) {
                RestartDecision::Stop
            } else {
                RestartDecision::RestartAfter(SHORT_BACKOFF_MS)
            }
        },
    }
}

/// A stop decision arises only where the stop predicate held of a normal
/// exit: neither a launch failure nor an exit that the predicate rejects
/// ever yields `Stop`.
pub proof fn lemma_stop_decision_needs_predicate(outcome: ProcessOutcome, stop: bool)
    ensures
        spec_decide(outcome, stop) == RestartDecision::Stop ==> stop && outcome is Exited,
{
}

/// The backoff for each kind of outcome: a launch failure is delayed by the
/// long backoff, and a normal exit that meets no stop condition by the
/// short one.
pub proof fn lemma_backoff_by_outcome(outcome: ProcessOutcome, stop: bool)
    ensures
        outcome is LaunchFailure ==> spec_decide(outcome, stop)
            == RestartDecision::RestartAfter(LONG_BACKOFF_MS),
        outcome is Exited && !stop ==> spec_decide(outcome, stop)
            == RestartDecision::RestartAfter(SHORT_BACKOFF_MS),
{
}

} // verus!
