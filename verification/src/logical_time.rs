//! The logical clock of consensus.

use vstd::prelude::*;

verus! {

/// A point of the logical clock: an epoch and a round within it.
///
/// Logical times are totally ordered, first by epoch and then by round.
#[derive(Clone, Copy, Debug, PartialEq, Eq, PartialOrd, Ord, Hash)]
pub struct LogicalTime {
    pub epoch: u64,
    pub round: u64,
}

impl LogicalTime {
    /// The strict lexicographic order on (epoch, round).
    pub open spec fn precedes(self, other: LogicalTime) -> bool {
        self.epoch < other.epoch || (self.epoch == other.epoch && self.round < other.round)
    }

    /// The later of two logical times.
    pub open spec fn later_of(self, other: LogicalTime) -> LogicalTime {
        if self.precedes(other) {
            other
        } else {
            self
        }
    }

    pub fn new(epoch: u64, round: u64) -> (t: Self)
        ensures
            t == (LogicalTime { epoch, round }),
    {
        Self { epoch, round }
    }

    pub fn epoch(&self) -> (e: u64)
        ensures
            e == self.epoch,
    {
        self.epoch
    }

    pub fn round(&self) -> (r: u64)
        ensures
            r == self.round,
    {
        self.round
    }

    /// Whether `self` comes strictly before `other`.
    pub fn is_before(&self, other: &LogicalTime) -> (b: bool)
        ensures
            b == self.precedes(*other),
    {
        self.epoch < other.epoch || (self.epoch == other.epoch && self.round < other.round)
    }

    /// Whether `self` comes strictly after `other`.
    pub fn is_after(&self, other: &LogicalTime) -> (b: bool)
        ensures
            b == other.precedes(*self),
    {
        other.is_before(self)
    }
}

/// The order on logical times is a strict total order: irreflexive,
/// transitive, and any two distinct times are comparable.
pub proof fn lemma_logical_time_total_order(a: LogicalTime, b: LogicalTime, c: LogicalTime)
    ensures
        !a.precedes(a),
        a.precedes(b) && b.precedes(c) ==> a.precedes(c),
        a.precedes(b) || b.precedes(a) || a == b,
        !(a.precedes(b) && b.precedes(a)),
{
}

/// `later_of` is commutative, and is an upper bound of both arguments.
pub proof fn lemma_logical_time_max(a: LogicalTime, b: LogicalTime)
    ensures
        a.later_of(b) == b.later_of(a),
        !a.later_of(b).precedes(a),
        !a.later_of(b).precedes(b),
        a.later_of(b) == a || a.later_of(b) == b,
{
}

} // verus!
