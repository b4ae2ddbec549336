use std::sync::atomic::AtomicUsize;
use vstd::prelude::*;

verus! {

/// The place of a slot in a list of recently used slots that lives outside
/// the slot. The slot carries the index and never looks at it; the list
/// reads and writes it, from any thread.
pub struct LruIndex {
    index: AtomicUsize,
}

impl LruIndex {
    /// The index was made holding `value`.
    pub closed spec fn starts_at(&self, value: usize) -> bool {
        call_ensures(AtomicUsize::new, (value,), self.index)
    }

    /// `value` is what a look at the index found. Another thread may write
    /// the index at any time, so two looks need not find the same.
    pub closed spec fn loads(&self, value: usize) -> bool {
        call_ensures(AtomicUsize::load, (&self.index, std::sync::atomic::Ordering::Acquire), value)
    }

    /// The index of a slot that is in no list.
    pub fn new() -> (index: LruIndex)
        ensures
            index.starts_at(usize::MAX),
    {
        LruIndex { index: AtomicUsize::new(usize::MAX) }
    }

    pub fn load(&self) -> (value: usize)
        ensures
            self.loads(value),
    {
        self.index.load(std::sync::atomic::Ordering::Acquire)
    }

    /// `value` was written to the index.
    pub closed spec fn stores(&self, value: usize) -> bool {
        call_ensures(
            AtomicUsize::store,
            (&self.index, value, std::sync::atomic::Ordering::Release),
            (),
        )
    }

    pub fn store(&self, value: usize)
        ensures
            self.stores(value),
    {
        self.index.store(value, std::sync::atomic::Ordering::Release)
    }

    /// Takes the slot out of the list's books.
    pub fn clear(&self)
        ensures
            self.stores(usize::MAX),
    {
        self.store(usize::MAX)
    }

    /// Whether the index that is found says that the slot is in the list.
    pub fn is_in_lru(&self) -> (b: bool)
        ensures
            exists|value: usize| #[trigger] self.loads(value) && b == (value != usize::MAX),
    {
        self.load() != usize::MAX
    }
}

} // verus!
