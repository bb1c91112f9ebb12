use vstd::prelude::*;

verus! {

/// Errors raised by the daemon's own logic.
#[derive(Debug)]
pub enum DaemonError {
    /// Failed to bind to the IPC socket.
    BindFailed(String),
    /// Failed to acquire the daemon lock.
    LockFailed(String),
    /// A lifecycle transition that the state machine does not allow.
    InvalidStateTransition { from: String, to: String },
}

/// Errors the command-line client reports, by kind.
#[derive(Debug, PartialEq, Eq)]
pub enum CliError {
    /// The arguments are not acceptable; the text says why.
    InvalidArgs(String),
    /// A lock held elsewhere refuses the write.
    Conflict(String),
    /// The operation ran and found a fault.
    Internal(String),
}

} // verus!
