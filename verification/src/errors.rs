//! Error values carried by completion notifications.

use vstd::prelude::*;

verus! {

/// A storage-device I/O failure reported by the log store, forwarded to the
/// consensus core unchanged. Carries the message of the underlying OS or
/// storage error.
#[derive(Clone, PartialEq, Eq, Debug)]
pub struct IoError {
    /// Message of the underlying error.
    pub message: String,
}

impl IoError {
    /// Construction never fails and stores the message unchanged.
    pub fn new(message: String) -> (r: IoError)
        ensures
            r.message == message,
    {
        IoError { message }
    }
}

/// A failure while applying committed entries to the state machine: either
/// the underlying device I/O error, or a higher-level storage inconsistency
/// described by a message.
#[derive(Clone, PartialEq, Eq, Debug)]
pub enum StorageError {
    /// The state-machine store hit a device I/O failure.
    Io(IoError),
    /// The store found its own contents inconsistent.
    Inconsistency(String),
}

} // verus!
