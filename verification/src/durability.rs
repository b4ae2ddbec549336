use vstd::prelude::*;

verus! {

/// How often an input may be expected to change. A higher durability means
/// fewer changes; `High` is meant for values that are as good as constant.
#[derive(Clone, Copy, Debug, PartialEq, Eq, Structural, PartialOrd, Ord, Hash)]
pub enum Durability {
    Low,
    Medium,
    High,
}

impl Durability {
    /// The position of the label in the order `Low < Medium < High`.
    pub open spec fn level(self) -> nat {
        match self {
            Durability::Low => 0,
            Durability::Medium => 1,
            Durability::High => 2,
        }
    }

    pub fn index(self) -> (i: u8)
        ensures
            i == self.level(),
    {
        match self {
            Durability::Low => 0,
            Durability::Medium => 1,
            Durability::High => 2,
        }
    }

    /// True if `self` is at least as durable as `other`.
    pub fn is_at_least(self, other: Durability) -> (b: bool)
        ensures
            b == (self.level() >= other.level()),
    {
        self.index() >= other.index()
    }

    /// The less durable of the two labels.
    pub fn min(self, other: Durability) -> (d: Durability)
        ensures
            d.level() <= self.level(),
            d.level() <= other.level(),
            d == self || d == other,
    {
        if self.index() <= other.index() {
            self
        } else {
            other
        }
    }
}

/// The order of the labels is total and antisymmetric.
pub proof fn lemma_durability_total_order(a: Durability, b: Durability)
    ensures
        a.level() <= b.level() || b.level() <= a.level(),
        (a.level() == b.level()) <==> (a == b),
{
}

} // verus!
