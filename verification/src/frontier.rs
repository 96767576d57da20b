//! The consensus core's flushed-frontier watermark.
//!
//! Storage engines may complete flushes in any real-time order, so the core
//! must never let a completion move its durability frontier backwards, and a
//! completion stamped with a superseded epoch must never advance the frontier
//! of the current one. The frontier can only be updated through
//! [`FlushFrontier::merge`], a compare-and-merge keyed by the
//! `(epoch, index)` order of [`LogIOId`].

use vstd::prelude::*;

use crate::log_id::LogIOId;

verus! {

/// The highest log identity known durable within the consensus core's
/// current epoch.
#[derive(Clone, Copy, Debug)]
pub struct FlushFrontier {
    epoch: u64,
    flushed: Option<LogIOId>,
}

impl FlushFrontier {
    /// The epoch the core currently believes itself to be in.
    pub closed spec fn spec_epoch(self) -> u64 {
        self.epoch
    }

    /// The highest identity accepted as flushed in the current epoch, if any.
    pub closed spec fn spec_flushed(self) -> Option<LogIOId> {
        self.flushed
    }

    /// Well-formed: whatever is recorded as flushed belongs to the current
    /// epoch.
    pub open spec fn wf(self) -> bool {
        self.spec_flushed() matches Some(f) ==> f.epoch == self.spec_epoch()
    }

    /// A fresh frontier for the given epoch, with nothing yet durable.
    pub fn new(epoch: u64) -> (r: FlushFrontier)
        ensures
            r.wf(),
            r.spec_epoch() == epoch,
            r.spec_flushed() is None,
    {
        FlushFrontier { epoch, flushed: None }
    }

    /// The current epoch.
    pub fn epoch(&self) -> (r: u64)
        ensures
            r == self.spec_epoch(),
    {
        self.epoch
    }

    /// The current watermark, if any flush has been accepted.
    pub fn flushed(&self) -> (r: Option<LogIOId>)
        ensures
            r == self.spec_flushed(),
    {
        self.flushed
    }

    /// Move to a newer epoch. The watermark of the superseded epoch no
    /// longer constrains the new one and is cleared; entering the epoch the
    /// core is already in changes nothing.
    pub fn enter_epoch(&mut self, epoch: u64)
        requires
            old(self).wf(),
            old(self).spec_epoch() <= epoch,
        ensures
            final(self).wf(),
            final(self).spec_epoch() == epoch,
            epoch == old(self).spec_epoch() ==> *final(self) == *old(self),
            epoch > old(self).spec_epoch() ==> final(self).spec_flushed() is None,
    {
        if epoch > self.epoch {
            self.epoch = epoch;
            self.flushed = None;
        }
    }

    /// Compare-and-merge a completed flush identity into the frontier.
    ///
    /// A completion stamped with any epoch other than the current one is
    /// stale (or premature) and rejected; one from the current epoch
    /// advances the watermark only if it lies strictly beyond it. Whatever
    /// happens, the watermark never regresses: once an index is reported
    /// flushed in an epoch, no later merge lowers it.
    pub fn merge(&mut self, id: LogIOId) -> (accepted: bool)
        requires
            old(self).wf(),
        ensures
            final(self).wf(),
            final(self).spec_epoch() == old(self).spec_epoch(),
            accepted <==> (id.epoch == old(self).spec_epoch() && (old(self).spec_flushed()
                matches Some(f) ==> f.spec_lt(id))),
            accepted ==> final(self).spec_flushed() == Some(id),
            !accepted ==> *final(self) == *old(self),
            old(self).spec_flushed() matches Some(f) ==> (final(self).spec_flushed()
                matches Some(g) && (g == f || f.spec_lt(g))),
    {
        if id.epoch != self.epoch {
            return false;
        }
        match self.flushed {
            None => {
                self.flushed = Some(id);
                true
            },
            Some(f) => {
                if f < id {
                    self.flushed = Some(id);
                    true
                } else {
                    false
                }
            },
        }
    }
}

} // verus!
