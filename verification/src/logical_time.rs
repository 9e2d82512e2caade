//! Logical time: the pair (epoch, round) by which batches expire and actors
//! compare progress.

use vstd::prelude::*;

verus! {

/// A round number within an epoch.
pub type Round = u64;

/// A point of progress of the protocol: an epoch and a round within it.
///
/// Logical times are ordered lexicographically, the epoch first.
#[derive(Clone, Copy, Debug, PartialEq, Eq, Structural)]
pub struct LogicalTime {
    epoch: u64,
    round: Round,
}

/// The strict lexicographic order on (epoch, round) pairs.
pub open spec fn time_lt(a: (int, int), b: (int, int)) -> bool {
    a.0 < b.0 || (a.0 == b.0 && a.1 < b.1)
}

impl View for LogicalTime {
    type V = (int, int);

    closed spec fn view(&self) -> (int, int) {
        (self.epoch as int, self.round as int)
    }
}

impl LogicalTime {
    pub fn new(epoch: u64, round: Round) -> (t: Self)
        ensures
            t@ == (epoch as int, round as int),
    {
        LogicalTime { epoch, round }
    }

    pub fn epoch(&self) -> (e: u64)
        ensures
            e as int == self@.0,
    {
        self.epoch
    }

    pub fn round(&self) -> (r: Round)
        ensures
            r as int == self@.1,
    {
        self.round
    }

    /// Whether `self` comes strictly before `other`.
    pub fn is_before(&self, other: &LogicalTime) -> (b: bool)
        ensures
            b == time_lt(self@, other@),
    {
        self.epoch < other.epoch || (self.epoch == other.epoch && self.round < other.round)
    }

    /// Whether `self` comes before `other` or equals it.
    pub fn is_at_or_before(&self, other: &LogicalTime) -> (b: bool)
        ensures
            b == !time_lt(other@, self@),
    {
        !other.is_before(self)
    }
}

/// The order on logical times is a strict total order: irreflexive, transitive,
/// and any two distinct times are comparable.
pub proof fn lemma_time_order_is_strict_total(a: (int, int), b: (int, int), c: (int, int))
    ensures
        !time_lt(a, a),
        time_lt(a, b) && time_lt(b, c) ==> time_lt(a, c),
        time_lt(a, b) || time_lt(b, a) || a == b,
        !(time_lt(a, b) && time_lt(b, a)),
{
}

} // verus!
