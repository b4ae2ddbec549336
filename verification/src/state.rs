//! The state of a slot, and the steps that take it from one state to the
//! next. Each step is stated on the state as a plain value.

use crate::durability::Durability;
use crate::memo::{Memo, MemoInputs};
use crate::revision::Revision;
use crate::runtime::{reports_last_changed, Database, RuntimeId, StampedValue};
use crate::sweep::{DiscardIf, DiscardWhat, SweepStrategy};
use crate::waiting::{is_new_waiting, new_waiting, Waiting};
use vstd::prelude::*;

verus! {

/// What a slot holds of the result of its query.
#[verifier::reject_recursive_types(V)]
pub enum QueryState<V> {
    /// Nothing: the query was never read, or its memo was discarded.
    NotComputed,
    /// The runtime `id` is computing the result. `waiting` holds the
    /// runtimes that wait for it.
    InProgress { id: RuntimeId, waiting: Waiting<V> },
    /// The query was computed, and this is what came of it.
    Memoized(Memo<V>),
}

/// One line of a dump of the table: a key and the value kept for it.
#[derive(Debug)]
pub struct TableEntry<K, V> {
    pub key: K,
    pub value: Option<V>,
}

/// The error of a runtime that comes to finish a computation and does not
/// find its marker in the slot.
#[derive(Clone, Copy, Debug, PartialEq, Eq, Structural)]
pub struct PlaceholderLost;

impl<V> QueryState<V> {
    /// The memo of the state, if it holds one.
    pub open spec fn memo(self) -> Option<Memo<V>> {
        match self {
            QueryState::Memoized(memo) => Some(memo),
            _ => None,
        }
    }

    /// The runtime that computes the result, if one does.
    pub open spec fn owner(self) -> Option<RuntimeId> {
        match self {
            QueryState::InProgress { id, .. } => Some(id),
            _ => None,
        }
    }

    /// A memo in the state is well formed and no younger than `now`.
    pub open spec fn valid_at(self, now: Revision) -> bool {
        self matches QueryState::Memoized(memo) ==> memo.valid_at(now)
    }

    /// The state holds a value that was verified in the revision `now`.
    pub open spec fn is_up_to_date(self, now: Revision) -> bool {
        self matches QueryState::Memoized(memo) && memo.value is Some && memo.is_current(now)
    }

    /// What takes the place of the marker of a computation that has come
    /// to an end: `memo`, or nothing if there is no memo to leave.
    pub open spec fn completed(memo: Option<Memo<V>>) -> QueryState<V> {
        match memo {
            Some(memo) => QueryState::Memoized(memo),
            None => QueryState::NotComputed,
        }
    }

    /// The state after the runtime `id` came to replace its marker by
    /// `memo`: a state that does not hold the marker of `id` stays as it
    /// is.
    pub open spec fn placeholder_overwritten(self, id: RuntimeId, memo: Option<Memo<V>>) -> QueryState<
        V,
    > {
        if self.owner() == Some(id) {
            Self::completed(memo)
        } else {
            self
        }
    }

    /// The state after `n` evictions.
    pub open spec fn evicted_times(self, n: nat) -> QueryState<V>
        decreases n,
    {
        if n == 0 {
            self
        } else {
            self.evicted().evicted_times((n - 1) as nat)
        }
    }

    /// The state after an eviction: a memoized value goes, unless it was
    /// computed from untracked inputs.
    pub open spec fn evicted(self) -> QueryState<V> {
        match self {
            QueryState::Memoized(memo) => if memo.inputs is Untracked {
                self
            } else {
                QueryState::Memoized(memo.without_value())
            },
            _ => self,
        }
    }

    /// Whether a sweep in the revision `now` leaves `memo` alone: a memo
    /// that was verified in `now` stays if only outdated ones are to go, or
    /// if it was computed from untracked inputs.
    pub open spec fn sweep_keeps(memo: Memo<V>, now: Revision, strategy: SweepStrategy) -> bool {
        memo.is_current(now) && (strategy.discard_if == DiscardIf::Outdated
            || memo.inputs is Untracked)
    }

    /// The state after a sweep.
    pub open spec fn swept(self, now: Revision, strategy: SweepStrategy) -> QueryState<V> {
        match self {
            QueryState::Memoized(memo) => if Self::sweep_keeps(memo, now, strategy) {
                self
            } else if strategy.discard_what == DiscardWhat::Values {
                QueryState::Memoized(memo.without_value())
            } else {
                QueryState::NotComputed
            },
            _ => self,
        }
    }

    /// The state after a walk over the inputs of its memo has come to
    /// `maybe_changed`: a memo that nobody verified meanwhile is taken as
    /// verified in `now` if no input changed, and is discarded otherwise.
    pub open spec fn settled(self, now: Revision, maybe_changed: bool) -> QueryState<V> {
        match self {
            QueryState::Memoized(memo) => if memo.is_current(now) {
                self
            } else if maybe_changed {
                QueryState::NotComputed
            } else {
                QueryState::Memoized(memo.verified_in(now))
            },
            _ => self,
        }
    }

    /// What `durability` returns if `last_changed` is when an input of the
    /// memo's durability was last written.
    pub open spec fn durability_given(self, last_changed: Revision) -> Durability {
        match self {
            QueryState::Memoized(memo) => if memo.durability_holds(last_changed) {
                memo.durability
            } else {
                Durability::Low
            },
            _ => Durability::Low,
        }
    }

    /// `d` is a durability that the state vouches for against `db`: the
    /// lowest unless the state holds a memo, and else what comes of the
    /// answer of `db` to when an input of the memo's durability was last
    /// written.
    pub open spec fn vouches_for<DB: Database>(self, db: &DB, d: Durability) -> bool {
        match self {
            QueryState::Memoized(memo) => exists|last_changed: Revision| #[trigger]
                reports_last_changed(db, memo.durability, last_changed) && d
                    == self.durability_given(last_changed),
            _ => d == Durability::Low,
        }
    }

    /// The marker of a computation by the runtime `id`, with nobody waiting.
    pub fn in_progress(id: RuntimeId) -> (state: QueryState<V>)
        ensures
            state.owner() == Some(id),
            is_new_waiting(state->waiting),
    {
        QueryState::InProgress { id, waiting: new_waiting() }
    }

    pub fn is_in_progress(&self) -> (b: bool)
        ensures
            b == (self is InProgress),
    {
        match self {
            QueryState::InProgress { .. } => true,
            _ => false,
        }
    }

    /// Puts the marker of the runtime `id` into the slot and takes out the
    /// memo that was there, if any.
    pub fn begin_compute(&mut self, id: RuntimeId) -> (old_memo: Option<Memo<V>>)
        requires
            !(*old(self) is InProgress),
        ensures
            final(self).owner() == Some(id),
            is_new_waiting(final(self)->waiting),
            old_memo == old(self).memo(),
    {
        let mut taken = QueryState::in_progress(id);
        std::mem::swap(self, &mut taken);
        match taken {
            QueryState::Memoized(memo) => Some(memo),
            QueryState::NotComputed => None,
            QueryState::InProgress { .. } => unreached(),
        }
    }

    /// Replaces the marker that the runtime `id` had put into the slot: by
    /// `memo`, or by nothing if there is no memo to leave. Returns the
    /// runtimes that waited. A slot that does not hold the marker of `id`
    /// is left as it is.
    pub fn overwrite_placeholder(&mut self, id: RuntimeId, memo: Option<Memo<V>>) -> (r: Result<
        Waiting<V>,
        PlaceholderLost,
    >)
        ensures
            *final(self) == old(self).placeholder_overwritten(id, memo),
            old(self).owner() == Some(id) ==> r == Ok::<Waiting<V>, PlaceholderLost>(
                old(self)->waiting,
            ),
            old(self).owner() != Some(id) ==> r is Err,
        opens_invariants none
        no_unwind
    {
        let owned = match self {
            QueryState::InProgress { id: owner, .. } => *owner == id,
            _ => false,
        };
        if !owned {
            return Err(PlaceholderLost);
        }
        let mut taken = match memo {
            Some(memo) => QueryState::Memoized(memo),
            None => QueryState::NotComputed,
        };
        std::mem::swap(self, &mut taken);
        match taken {
            QueryState::InProgress { id: _, waiting } => Ok(waiting),
            _ => Err(PlaceholderLost),
        }
    }

    /// Discards the value of a memo, unless it was computed from untracked
    /// inputs: running the query again in the same revision could give
    /// another value.
    pub fn evict(&mut self)
        ensures
            *final(self) == old(self).evicted(),
    {
        match self {
            QueryState::Memoized(memo) => {
                if memo.has_untracked_input() {
                    return ;
                }
                memo.value = None;
            },
            _ => {},
        }
    }

    /// Discards what `strategy` asks for, which must be a strategy that
    /// discards something at some time: see [`SweepStrategy::check`]. A
    /// state without a memo is left alone.
    pub fn sweep(&mut self, revision_now: Revision, strategy: SweepStrategy)
        requires
            strategy.is_legal(),
        ensures
            *final(self) == old(self).swept(revision_now, strategy),
    {
        let discard = match self {
            QueryState::Memoized(memo) => {
                // A memo that read something untracked may only go once it
                // is outdated: were it discarded in the revision it was
                // made in, the query might run again and come to another
                // value within one revision.
                let current = memo.verified_at == revision_now;
                let keep = current && (strategy.discard_if == DiscardIf::Outdated
                    || memo.has_untracked_input());
                !keep
            },
            // A computation in progress belongs to the runtime that runs it.
            _ => false,
        };
        if discard {
            match strategy.discard_what {
                DiscardWhat::Values => {
                    match self {
                        QueryState::Memoized(memo) => {
                            memo.value = None;
                        },
                        _ => {},
                    }
                },
                _ => {
                    *self = QueryState::NotComputed;
                },
            }
        }
    }

    /// Records what a walk over the inputs of the memo came to. Much may
    /// have happened to the slot since the walk began: a memo that was
    /// verified meanwhile, a computation in progress and an empty slot are
    /// left alone.
    pub fn settle(&mut self, revision_now: Revision, maybe_changed: bool)
        ensures
            *final(self) == old(self).settled(revision_now, maybe_changed),
    {
        let discard = match self {
            QueryState::Memoized(memo) => {
                if memo.verified_at == revision_now {
                    false
                } else if maybe_changed {
                    true
                } else {
                    memo.verified_at = revision_now;
                    false
                }
            },
            _ => false,
        };
        if discard {
            *self = QueryState::NotComputed;
        }
    }

    /// The durability that the slot can vouch for: that of its memo if no
    /// input of that durability was written since the memo was verified,
    /// and the lowest otherwise.
    pub fn durability<DB: Database>(&self, db: &DB) -> (d: Durability)
        requires
            !(*self is InProgress),
        ensures
            self.vouches_for(db, d),
    {
        match self {
            QueryState::NotComputed => Durability::Low,
            QueryState::InProgress { .. } => unreached(),
            QueryState::Memoized(memo) => {
                if memo.check_durability(db) {
                    memo.durability
                } else {
                    Durability::Low
                }
            },
        }
    }
}

impl<V: Clone> QueryState<V> {
    /// `entry` is the line of the state in a dump of the table, under
    /// `key`: none for an empty state, the key alone while the value is
    /// being computed, else the key with a copy of the value that is kept.
    pub open spec fn shows<K: Clone>(self, key: K, entry: Option<TableEntry<K, V>>) -> bool {
        &&& entry is None <==> self is NotComputed
        &&& entry matches Some(e) ==> cloned(key, e.key) && match self {
            QueryState::Memoized(memo) => match memo.value {
                Some(value) => e.value is Some && cloned(value, e.value->0),
                None => e.value is None,
            },
            _ => e.value is None,
        }
    }

    /// The value of the state with its stamps, if the state is up to date
    /// in `revision_now`.
    pub fn current_value(&self, revision_now: Revision) -> (r: Option<StampedValue<V>>)
        ensures
            r is Some <==> self.is_up_to_date(revision_now),
            r matches Some(stamped) ==> self->Memoized_0.stamps(stamped),
    {
        match self {
            QueryState::Memoized(memo) => {
                match &memo.value {
                    Some(value) => {
                        if memo.verified_at == revision_now {
                            Some(
                                StampedValue {
                                    durability: memo.durability,
                                    changed_at: memo.changed_at,
                                    value: value.clone(),
                                },
                            )
                        } else {
                            None
                        }
                    },
                    None => None,
                }
            },
            _ => None,
        }
    }

    /// The line of the slot in a dump of the table: none for an empty slot,
    /// the key alone while the value is being computed, else the key with
    /// the value that is kept.
    pub fn as_table_entry<K: Clone>(&self, key: &K) -> (entry: Option<TableEntry<K, V>>)
        ensures
            self.shows(*key, entry),
    {
        match self {
            QueryState::NotComputed => None,
            QueryState::InProgress { .. } => Some(TableEntry { key: key.clone(), value: None }),
            QueryState::Memoized(memo) => Some(
                TableEntry { key: key.clone(), value: memo.value.clone() },
            ),
        }
    }
}

} // verus!
