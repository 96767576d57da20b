//! Identities of in-flight storage requests.

use vstd::prelude::*;

verus! {

/// Identity of an in-flight log-persistence request: the leadership epoch the
/// request was issued under, then the log index it covers.
///
/// Ordered primarily by epoch, then by index: an identity from an older epoch
/// is below every identity from a newer epoch, whatever the indexes.
#[derive(Clone, Copy, PartialEq, Eq, Structural, Debug)]
pub struct LogIOId {
    /// Leadership stamp the request belongs to.
    pub epoch: u64,
    /// Log position within that epoch.
    pub index: u64,
}

impl LogIOId {
    /// The strict order on identities: epoch first, index second.
    pub open spec fn spec_lt(self, other: LogIOId) -> bool {
        self.epoch < other.epoch || (self.epoch == other.epoch && self.index < other.index)
    }

    /// Construction never fails and stores the values unchanged.
    pub fn new(epoch: u64, index: u64) -> (r: LogIOId)
        ensures
            r.epoch == epoch,
            r.index == index,
    {
        LogIOId { epoch, index }
    }
}

impl PartialOrd for LogIOId {
    fn partial_cmp(&self, other: &LogIOId) -> (r: Option<core::cmp::Ordering>) {
        if self.epoch < other.epoch {
            Some(core::cmp::Ordering::Less)
        } else if other.epoch < self.epoch {
            Some(core::cmp::Ordering::Greater)
        } else if self.index < other.index {
            Some(core::cmp::Ordering::Less)
        } else if other.index < self.index {
            Some(core::cmp::Ordering::Greater)
        } else {
            Some(core::cmp::Ordering::Equal)
        }
    }
}

impl vstd::std_specs::cmp::PartialOrdSpecImpl for LogIOId {
    open spec fn obeys_partial_cmp_spec() -> bool {
        true
    }

    open spec fn partial_cmp_spec(&self, other: &LogIOId) -> Option<core::cmp::Ordering> {
        if self.spec_lt(*other) {
            Some(core::cmp::Ordering::Less)
        } else if other.spec_lt(*self) {
            Some(core::cmp::Ordering::Greater)
        } else {
            Some(core::cmp::Ordering::Equal)
        }
    }
}

/// The order on [`LogIOId`] is total: epoch dominates index, equal epochs
/// compare by index, and the strict order is irreflexive, asymmetric,
/// transitive, and decides every pair up to equality.
pub proof fn lemma_log_io_id_total_order(a: LogIOId, b: LogIOId, c: LogIOId)
    ensures
        a.epoch < b.epoch ==> a.spec_lt(b),
        a.epoch == b.epoch ==> (a.spec_lt(b) <==> a.index < b.index),
        !a.spec_lt(a),
        a.spec_lt(b) ==> !b.spec_lt(a),
        a.spec_lt(b) && b.spec_lt(c) ==> a.spec_lt(c),
        a.spec_lt(b) || b.spec_lt(a) || a == b,
{
}

/// Position of a log entry; an apply completion is bound to the position of
/// the last entry in its batch.
#[derive(Clone, Copy, PartialEq, Eq, Structural, Debug)]
pub struct LogId {
    /// Position in the log.
    pub index: u64,
}

impl LogId {
    /// Construction never fails and stores the value unchanged.
    pub fn new(index: u64) -> (r: LogId)
        ensures
            r.index == index,
    {
        LogId { index }
    }
}

} // verus!
