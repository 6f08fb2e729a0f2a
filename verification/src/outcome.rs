use vstd::prelude::*;

verus! {

/// How a supervised child terminated, once it was running.
#[derive(Clone, Copy, PartialEq, Eq, Structural, Debug)]
pub enum TerminationKind {
    /// The child exited on its own and left a numeric exit code.
    ExitCode(i32),
    /// The child was ended by a signal or in some other way that leaves no
    /// exit code.
    Abnormal,
}

/// One attempt's termination result together with the text captured from the
/// child's standard-output and standard-error pipes.
pub struct ExitReport {
    pub kind: TerminationKind,
    pub stdout: String,
    pub stderr: String,
}

/// The result of one supervision attempt: either the child ran and
/// terminated, or it could not be launched at all. The two are distinct
/// cases because the restart policy treats them differently.
pub enum ProcessOutcome {
    /// The child was spawned and ran to termination.
    Exited(ExitReport),
    /// The child could not be spawned, or its final status could not be
    /// retrieved; the text is the underlying error detail.
    LaunchFailure(String),
}

} // verus!
