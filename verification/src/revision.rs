use vstd::prelude::*;

verus! {

/// A point in the history of the database. Revisions only grow: the counter
/// moves on whenever an input is written.
#[derive(Clone, Copy, Debug, PartialEq, Eq, Structural, PartialOrd, Ord, Hash)]
pub struct Revision {
    pub generation: u64,
}

impl View for Revision {
    type V = nat;

    open spec fn view(&self) -> nat {
        self.generation as nat
    }
}

impl Revision {
    pub fn from_generation(generation: u64) -> (r: Revision)
        ensures
            r@ == generation,
            r.generation == generation,
    {
        Revision { generation }
    }

    pub fn generation(self) -> (g: u64)
        ensures
            g == self@,
    {
        self.generation
    }

    /// True if `self` is `other` or came before it.
    pub fn is_at_or_before(self, other: Revision) -> (b: bool)
        ensures
            b == (self@ <= other@),
    {
        self.generation <= other.generation
    }

    /// True if `self` came strictly later than `other`.
    pub fn is_after(self, other: Revision) -> (b: bool)
        ensures
            b == (self@ > other@),
    {
        self.generation > other.generation
    }
}

/// Two revisions with the same generation are the same revision.
pub proof fn lemma_revision_view_injective(a: Revision, b: Revision)
    ensures
        (a@ == b@) <==> (a == b),
{
}

} // verus!
