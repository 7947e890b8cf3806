//! The manager's errors, and which of them end the process.

use vstd::prelude::*;
use crate::grabs::Trigger;

verus! {

/// The display connection could not be set up.
#[derive(Clone, Copy, Debug, PartialEq, Eq, Structural, Hash)]
pub enum ConnectionError {
    /// No display server answered.
    Unreachable,
    /// The server has no screen with the index that was asked for.
    NoSuchScreen,
    /// The connection broke while the manager ran.
    Closed,
}

/// A key or button is already grabbed with the same modifiers.
#[derive(Clone, Copy, Debug, PartialEq, Eq, Structural, Hash)]
pub struct GrabConflictError {
    /// The combination that could not be grabbed.
    pub trigger: Trigger,
}

/// The transport failed to deliver an event.
#[derive(Clone, Copy, Debug, PartialEq, Eq, Structural, Hash)]
pub struct TransientEventError {}

/// A client program could not be launched.
#[derive(Clone, Copy, Debug, PartialEq, Eq, Structural, Hash)]
pub struct SpawnError {}

/// Every error that the manager can meet.
#[derive(Clone, Copy, Debug, PartialEq, Eq, Structural, Hash)]
pub enum ManagerError {
    Connection(ConnectionError),
    GrabConflict(GrabConflictError),
    TransientEvent(TransientEventError),
    Spawn(SpawnError),
}

impl ManagerError {
    /// An error is fatal when the manager cannot go on after it: without a
    /// display connection there is nothing to manage, and with a shortcut
    /// owned by another process the manager would run with part of its grabs
    /// only.
    pub open spec fn spec_is_fatal(self) -> bool {
        self is Connection || self is GrabConflict
    }

    /// Tells whether the error must end the process. The others are reported
    /// and passed over.
    pub fn is_fatal(&self) -> (fatal: bool)
        ensures
            fatal == self.spec_is_fatal(),
    {
        match self {
            ManagerError::Connection(_) => true,
            ManagerError::GrabConflict(_) => true,
            ManagerError::TransientEvent(_) => false,
            ManagerError::Spawn(_) => false,
        }
    }
}

/// The exit status for a finished run: zero after a clean shutdown, one when
/// an error was left unhandled.
pub open spec fn spec_exit_code(outcome: Result<(), ManagerError>) -> i32 {
    if outcome is Ok {
        0
    } else {
        1
    }
}

/// Computes the process exit status from the outcome of the run.
pub fn exit_code(outcome: &Result<(), ManagerError>) -> (code: i32)
    ensures
        code == spec_exit_code(*outcome),
{
    match outcome {
        Ok(_) => 0,
        Err(_) => 1,
    }
}

} // verus!
