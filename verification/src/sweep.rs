use vstd::prelude::*;

verus! {

/// When a sweep may discard a memo.
#[derive(Clone, Copy, Debug, PartialEq, Eq, Structural)]
pub enum DiscardIf {
    /// Never: not a strategy to sweep with.
    Never,
    /// Only if the memo was not verified in the current revision.
    Outdated,
    /// Whenever that is safe.
    Always,
}

/// What a sweep discards of a memo.
#[derive(Clone, Copy, Debug, PartialEq, Eq, Structural)]
pub enum DiscardWhat {
    /// Nothing: not a strategy to sweep with.
    Nothing,
    /// The value; the stamps and the inputs stay.
    Values,
    /// The whole memo.
    Everything,
}

#[derive(Clone, Copy, Debug, PartialEq, Eq, Structural)]
pub struct SweepStrategy {
    pub discard_if: DiscardIf,
    pub discard_what: DiscardWhat,
}

/// The error of a strategy that would discard never, or nothing: no sweep
/// may be made with it.
#[derive(Clone, Copy, Debug, PartialEq, Eq, Structural)]
pub struct IllegalStrategy;

impl SweepStrategy {
    /// A strategy is legal to sweep with if it discards something at some
    /// time.
    pub open spec fn is_legal(self) -> bool {
        self.discard_if != DiscardIf::Never && self.discard_what != DiscardWhat::Nothing
    }

    /// Whether a sweep may be made with the strategy.
    pub fn check(&self) -> (r: Result<(), IllegalStrategy>)
        ensures
            r is Ok <==> self.is_legal(),
    {
        match (self.discard_if, self.discard_what) {
            (DiscardIf::Never, _) => Err(IllegalStrategy),
            (_, DiscardWhat::Nothing) => Err(IllegalStrategy),
            _ => Ok(()),
        }
    }

    /// Discards the values of the memos that are out of date.
    pub fn discard_outdated() -> (s: SweepStrategy)
        ensures
            s == (SweepStrategy { discard_if: DiscardIf::Outdated, discard_what: DiscardWhat::Values }),
            s.is_legal(),
    {
        SweepStrategy { discard_if: DiscardIf::Outdated, discard_what: DiscardWhat::Values }
    }
}

} // verus!
