//! Error taxonomy of the binding layer.
//!
//! Every fallible boundary operation returns a typed error; raw host status
//! codes never leak past this layer.

use vstd::prelude::*;

verus! {

/// The kind of a failed boundary operation.
#[derive(Clone, Copy, Debug, PartialEq, Eq, Structural)]
pub enum Status {
    /// Wrong runtime type on a downcast, a missing payload, or malformed
    /// hint data.
    InvalidArg,
    /// A thread-safe queue is at its configured capacity.
    QueueFull,
    /// The receiving end of a queue has already shut down.
    Closing,
    /// Any boundary failure without a more specific kind.
    GenericFailure,
    /// A host-side exception is already active and must be observed before
    /// further boundary calls are made.
    PendingException,
}

/// A typed error: the status a failed boundary call mapped to, plus a
/// human-readable reason.
#[derive(Debug)]
pub struct Error {
    pub status: Status,
    pub reason: String,
}

impl Error {
    pub fn new(status: Status, reason: String) -> (e: Error)
        ensures
            e.status == status,
            e.reason@ == reason@,
    {
        Error { status, reason }
    }
}

} // verus!
