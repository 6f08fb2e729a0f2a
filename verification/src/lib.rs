//! A process supervisor: the state machine that launches a single target
//! executable, feeds each attempt's outcome to a restart policy, and keeps
//! restarting until a stop condition matches or a shutdown is requested.
//!
//! The supervision logic — the loop's state machine, the restart policy, the
//! shutdown-flag protocol and the startup validation — is verified here. The
//! surrounding process plumbing (spawning the child, draining its pipes,
//! registering the interrupt handler, sleeping) is ordinary code that drives
//! this library from outside.

pub mod outcome;
pub mod policy;
pub mod shutdown;
pub mod startup;
pub mod supervisor;
