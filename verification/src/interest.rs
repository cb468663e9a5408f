//! Transmission interest: how urgently a frame producer wants a packet.

use vstd::prelude::*;

verus! {

/// What a producer has to send on the next opportunity. The levels are
/// ordered `Nothing < NewData < LostData < Forced`.
#[derive(Clone, Copy, Debug, PartialEq, Eq, Structural)]
pub enum Interest {
    Nothing,
    NewData,
    LostData,
    Forced,
}

impl Interest {
    /// Position of the level in the order.
    pub open spec fn rank(self) -> nat {
        match self {
            Interest::Nothing => 0,
            Interest::NewData => 1,
            Interest::LostData => 2,
            Interest::Forced => 3,
        }
    }

    /// The supremum of two levels.
    pub open spec fn join_spec(self, other: Interest) -> Interest {
        if self.rank() >= other.rank() {
            self
        } else {
            other
        }
    }

    /// Whether a packet is worth sending at this level.
    pub open spec fn wants_packet(self) -> bool {
        self.rank() >= 1
    }

    pub fn level(self) -> (r: u8)
        ensures
            r == self.rank(),
    {
        match self {
            Interest::Nothing => 0,
            Interest::NewData => 1,
            Interest::LostData => 2,
            Interest::Forced => 3,
        }
    }

    /// Combines the interests of two producers.
    pub fn join(self, other: Interest) -> (r: Interest)
        ensures
            r == self.join_spec(other),
    {
        if self.level() >= other.level() {
            self
        } else {
            other
        }
    }

    pub fn is_none(self) -> (r: bool)
        ensures
            r == (self == Interest::Nothing),
    {
        self.level() == 0
    }

    /// A packet is sent exactly when the interest is at least `NewData`.
    pub fn can_transmit(self) -> (r: bool)
        ensures
            r == self.wants_packet(),
    {
        self.level() >= 1
    }
}

/// The join is the least upper bound of its arguments: it is above both,
/// and below every level that is above both.
pub proof fn lemma_join_is_supremum(a: Interest, b: Interest, c: Interest)
    ensures
        a.join_spec(b).rank() >= a.rank(),
        a.join_spec(b).rank() >= b.rank(),
        c.rank() >= a.rank() && c.rank() >= b.rank() ==> c.rank() >= a.join_spec(b).rank(),
{
}

/// The join is idempotent, commutative and associative, and `Nothing` is its
/// neutral element.
pub proof fn lemma_join_semilattice(a: Interest, b: Interest, c: Interest)
    ensures
        a.join_spec(a) == a,
        a.join_spec(b) == b.join_spec(a),
        a.join_spec(b).join_spec(c) == a.join_spec(b.join_spec(c)),
        a.join_spec(Interest::Nothing) == a,
        Interest::Nothing.join_spec(a) == a,
{
}

} // verus!
