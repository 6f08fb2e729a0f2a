use vstd::prelude::*;

verus! {

/// The shutdown signal's state, shared between the interrupt handler (its
/// only writer, through `request_shutdown`) and the supervision loop (its
/// only reader, through `should_continue`). It starts at "keep running" and
/// moves at most once, monotonically, to "stop".
pub struct ShutdownFlag {
    stop_requested: bool,
}

impl ShutdownFlag {
    /// Whether a shutdown has been requested.
    pub closed spec fn stop_requested(&self) -> bool {
        self.stop_requested
    }

    /// The flag a shutdown request leaves behind, whatever it held before.
    pub closed spec fn spec_requested(self) -> ShutdownFlag {
        ShutdownFlag { stop_requested: true }
    }

    /// A fresh flag permits the loop to run.
    pub fn new() -> (f: ShutdownFlag)
        ensures
            !f.stop_requested(),
    {
        ShutdownFlag { stop_requested: false }
    }

    /// Record a shutdown request; the flag settles at "stop" and never
    /// returns to "continue".
    pub fn request_shutdown(&mut self)
        ensures
            *final(self) == old(self).spec_requested(),
            final(self).stop_requested(),
    {
        self.stop_requested = true;
    }

    /// Whether the supervision loop may keep going.
    pub fn should_continue(&self) -> (r: bool)
        ensures
            r == !self.stop_requested(),
    {
        !self.stop_requested
    }
}

/// Requesting a shutdown twice leaves the flag exactly as one request does:
/// the second request is a no-op.
pub proof fn lemma_request_shutdown_idempotent(f: ShutdownFlag)
    ensures
        f.spec_requested().spec_requested() == f.spec_requested(),
{
}

/// A shutdown request is monotonic: it always ends at "stop", and a flag
/// that already says "stop" is left unchanged.
pub proof fn lemma_request_shutdown_monotonic(f: ShutdownFlag)
    ensures
        f.spec_requested().stop_requested(),
        f.stop_requested() ==> f.spec_requested() == f,
{
}

} // verus!
