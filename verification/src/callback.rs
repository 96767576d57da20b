//! One-shot completion callbacks used by the storage engines.
//!
//! The consensus core constructs a callback bound to a fresh notification
//! channel and hands it to an engine alongside a request; the engine invokes
//! it exactly once when the operation finishes. Invocation consumes the
//! handle, so a second delivery on the same channel is ruled out by
//! ownership. Delivery to a receiver that has already been dropped is a
//! normal consequence of shutdown or an epoch change: the outcome of the
//! send is discarded, never retried, and never escalated.

use vstd::prelude::*;

use crate::errors::IoError;
use crate::errors::StorageError;
use crate::log_id::LogIOId;
use crate::log_id::LogId;

verus! {

/// tokio's one-shot channel sender, the write side of a notification
/// channel. Opaque to verification; each outstanding request owns exactly
/// one.
#[verifier::external_type_specification]
#[verifier::external_body]
#[verifier::reject_recursive_types(T)]
pub struct ExSender<T>(tokio::sync::oneshot::Sender<T>);

/// Relies on tokio::sync::oneshot::Sender::send: a non-blocking,
/// non-panicking, best-effort delivery that consumes the sender; when the
/// receiver has already been dropped it hands the value back unchanged as
/// `Err`.
pub assume_specification<T>[ tokio::sync::oneshot::Sender::<T>::send ](
    tx: tokio::sync::oneshot::Sender<T>,
    t: T,
) -> (r: Result<(), T>)
    ensures
        r matches Err(v) ==> v == t,
;

/// The message a flush completion puts on its channel: the identity of what
/// is now durable on success, the I/O error unchanged on failure.
pub open spec fn spec_flush_message(log_io_id: LogIOId, result: Result<(), IoError>) -> Result<
    LogIOId,
    IoError,
> {
    match result {
        Ok(_) => Ok(log_io_id),
        Err(e) => Err(e),
    }
}

/// Builds the channel message for a flush outcome. A success reports the
/// bound identity itself, never a default or altered value, so the
/// consensus core can advance its per-epoch frontier precisely; a failure
/// forwards the I/O error unchanged.
pub fn flush_message(log_io_id: LogIOId, result: Result<(), IoError>) -> (r: Result<
    LogIOId,
    IoError,
>)
    ensures
        r == spec_flush_message(log_io_id, result),
{
    match result {
        Ok(_) => Ok(log_io_id),
        Err(e) => Err(e),
    }
}

/// A successful flush outcome is reported as `Ok` of exactly the bound
/// identity, and a failed one as `Err` of exactly the reported error.
pub proof fn lemma_flush_identity_fidelity(log_io_id: LogIOId, e: IoError)
    ensures
        spec_flush_message(log_io_id, Ok(())) == Ok::<LogIOId, IoError>(log_io_id),
        spec_flush_message(log_io_id, Err(e)) == Err::<LogIOId, IoError>(e),
{
}

/// A one-shot callback for completion of a log flush, bound to one
/// [`LogIOId`] and one channel sender.
pub struct LogFlushed {
    log_io_id: LogIOId,
    tx: tokio::sync::oneshot::Sender<Result<LogIOId, IoError>>,
}

impl LogFlushed {
    /// The identity this handle is bound to.
    pub closed spec fn id(self) -> LogIOId {
        self.log_io_id
    }

    /// Bind a fresh handle to the identity of an outstanding persistence
    /// request and the write side of its notification channel.
    pub fn new(
        log_io_id: LogIOId,
        tx: tokio::sync::oneshot::Sender<Result<LogIOId, IoError>>,
    ) -> (r: LogFlushed)
        ensures
            r.id() == log_io_id,
    {
        LogFlushed { log_io_id, tx }
    }

    /// Report the flush outcome to the consensus core.
    ///
    /// Sends [`spec_flush_message`] of the bound identity and the outcome on
    /// the bound channel: `Ok` of the identity on success, the error
    /// unchanged on failure. Consumes the handle, so it is invoked at most
    /// once; if the receiver is already gone the message is discarded and
    /// nothing fails.
    pub fn log_io_completed(self, result: Result<(), IoError>) {
        let LogFlushed { log_io_id, tx } = self;
        let msg = flush_message(log_io_id, result);
        let _ = tx.send(msg);
    }
}

/// The message an apply completion puts on its channel: the bound identity
/// together with the per-entry responses on success, the storage error
/// unchanged on failure.
pub open spec fn spec_apply_message<R>(
    last_log_id: LogId,
    result: Result<Vec<R>, StorageError>,
) -> Result<(LogId, Vec<R>), StorageError> {
    match result {
        Ok(responses) => Ok((last_log_id, responses)),
        Err(e) => Err(e),
    }
}

/// Builds the channel message for an apply outcome. A success pairs the
/// bound identity with the responses exactly as submitted; a failure
/// forwards the storage error unchanged.
pub fn apply_message<R>(last_log_id: LogId, result: Result<Vec<R>, StorageError>) -> (r: Result<
    (LogId, Vec<R>),
    StorageError,
>)
    ensures
        r == spec_apply_message(last_log_id, result),
{
    match result {
        Ok(responses) => Ok((last_log_id, responses)),
        Err(e) => Err(e),
    }
}

/// Response-order fidelity: a successful apply outcome for a batch of `n`
/// responses is reported as `Ok` of the bound identity and a response
/// sequence of exactly length `n`, each response at the position it was
/// submitted at.
pub proof fn lemma_apply_response_order<R>(last_log_id: LogId, responses: Vec<R>)
    ensures
        ({
            let m = spec_apply_message(last_log_id, Ok(responses));
            &&& m is Ok
            &&& m->Ok_0.0 == last_log_id
            &&& m->Ok_0.1@.len() == responses@.len()
            &&& forall|i: int| 0 <= i < responses@.len() ==> m->Ok_0.1@[i] == responses@[i]
        }),
{
}

/// A failed apply outcome is reported as `Err` of exactly the reported
/// storage error.
pub proof fn lemma_apply_error_fidelity<R>(last_log_id: LogId, e: StorageError)
    ensures
        spec_apply_message::<R>(last_log_id, Err(e)) == Err::<(LogId, Vec<R>), StorageError>(e),
{
}

/// A one-shot callback for completion of applying a batch of committed
/// entries to the state machine, bound to the [`LogId`] of the last entry in
/// the batch and one channel sender. `R` is the per-entry response value.
#[verifier::reject_recursive_types(R)]
pub struct LogApplied<R> {
    last_log_id: LogId,
    tx: tokio::sync::oneshot::Sender<Result<(LogId, Vec<R>), StorageError>>,
}

impl<R> LogApplied<R> {
    /// The identity of the last entry this handle's batch reaches.
    pub closed spec fn last_id(self) -> LogId {
        self.last_log_id
    }

    /// Bind a fresh handle to the last identity of a dispatched apply batch
    /// and the write side of its notification channel.
    pub fn new(
        last_log_id: LogId,
        tx: tokio::sync::oneshot::Sender<Result<(LogId, Vec<R>), StorageError>>,
    ) -> (r: LogApplied<R>)
        ensures
            r.last_id() == last_log_id,
    {
        LogApplied { last_log_id, tx }
    }

    /// Report the apply outcome to the consensus core.
    ///
    /// Sends [`spec_apply_message`] of the bound identity and the outcome on
    /// the bound channel: `Ok` of the identity paired with the responses in
    /// submission order on success, the error unchanged on failure. Consumes
    /// the handle, so it is invoked at most once; if the receiver is already
    /// gone the message is discarded and nothing fails.
    pub fn completed(self, result: Result<Vec<R>, StorageError>) {
        let LogApplied { last_log_id, tx } = self;
        let msg = apply_message(last_log_id, result);
        let _ = tx.send(msg);
    }
}

} // verus!
