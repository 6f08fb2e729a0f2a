use vstd::prelude::*;

verus! {

/// A fatal startup error. These are the only errors that may terminate the
/// supervisor itself; every per-attempt error is absorbed by the restart
/// policy instead.
#[derive(Clone, Copy, PartialEq, Eq, Structural, Debug)]
pub enum StartupError {
    /// The supervised target path does not exist: a configuration error,
    /// reported before the loop ever starts.
    MissingTarget,
    /// The interrupt handler could not be installed, so a graceful shutdown
    /// cannot be guaranteed; the supervisor must not proceed silently.
    HandlerRegistrationFailed,
}

impl StartupError {
    /// The non-zero status the process exits with on this error.
    pub fn exit_code(&self) -> (c: i32)
        ensures
            c == 1,
    {
        1
    }
}

/// Whether startup may enter the supervision loop. It may if and only if
/// the target exists and the interrupt handler was installed; a missing
/// target is reported first.
pub fn validate_startup(target_exists: bool, handler_installed: bool) -> (r: Result<
    (),
    StartupError,
>)
    ensures
        r is Ok <==> target_exists && handler_installed,
        r == Result::<(), StartupError>::Err(StartupError::MissingTarget) <==> !target_exists,
        r == Result::<(), StartupError>::Err(StartupError::HandlerRegistrationFailed) <==> (
        target_exists && !handler_installed),
{
    if !target_exists {
        Err(StartupError::MissingTarget)
    } else if !handler_installed {
        Err(StartupError::HandlerRegistrationFailed)
    } else {
        Ok(())
    }
}

} // verus!
