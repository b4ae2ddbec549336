//! The slot: the state of one query for one key behind a lock, read and
//! written by any number of runtimes.

use crate::cell::{
    exclusive_state, lends, lends_for_writing, lock_exclusive, lock_shared, new_state_cell,
    shared_state, ExclusiveGuard, StateCell,
};
use crate::dependency::DatabaseKey;
use crate::durability::Durability;
use crate::lru::LruIndex;
use crate::memo::{first_changed_input, walks, ChangeProbe, Memo};
use crate::query::{
    reports_database_key, reports_equal, reports_executed, reports_memoize, MemoizationPolicy,
    QueryFunction,
};
use crate::revision::Revision;
use crate::runtime::{
    reports_begun, reports_ended, reports_event, reports_id, reports_may_block,
    reports_propagated_panic, reports_revision, reports_unblocked, ComputedQueryResult,
    CycleDetected, Database, Event, EventKind, RuntimeId, StampedValue,
};
use crate::state::{PlaceholderLost, QueryState, TableEntry};
use crate::sweep::SweepStrategy;
use crate::waiting::{
    abandon_waiters, is_new_waiting, notifies, notify_waiters, receives, register_waiter,
    registers, wait_for_value, Waiting,
};
use std::marker::PhantomData;
use std::sync::mpsc::Receiver;
use vstd::prelude::*;

verus! {

/// Why a read came to no value.
#[derive(Clone, Copy, Debug, PartialEq, Eq, Structural)]
pub enum ReadError {
    /// The value is being computed by this runtime, or by one that waits
    /// for this runtime: the read would have to wait for itself.
    Cycle,
    /// The database was in another revision after the query function had
    /// run than before: an input was written while a query was read.
    RevisionAltered,
    /// The marker of the computation was not in the slot when the
    /// computation came to an end.
    PlaceholderLost,
}

/// What a look at the state of a slot comes to.
#[verifier::reject_recursive_types(V)]
pub enum ProbeState<V> {
    /// The read is settled: by the value, which is up to date, or by a
    /// cycle.
    UpToDate(Result<StampedValue<V>, CycleDetected>),
    /// Another runtime computes the value, and this one is registered to
    /// get it: the value will arrive at the receiver.
    BlockedOn(RuntimeId, Receiver<StampedValue<V>>),
    /// The slot is empty, or its memo has no value, or the memo was not
    /// verified in the current revision.
    StaleOrAbsent,
}

/// What a runtime is to do to learn whether the value of a slot may have
/// changed.
#[verifier::reject_recursive_types(V)]
pub enum ChangePlan<V> {
    /// What a look at the state of the slot calls for.
    Probe(ChangeProbe),
    /// Another runtime computes the value, and this one is registered to
    /// get it: the value will arrive at the receiver.
    BlockedOn(Receiver<StampedValue<V>>),
}

/// The memoized result of the query `Q` for one key, in a database `DB`,
/// kept as the policy `MP` says.
#[verifier::reject_recursive_types(DB)]
#[verifier::reject_recursive_types(Q)]
#[verifier::reject_recursive_types(MP)]
pub struct Slot<DB: Database, Q: QueryFunction<DB>, MP: MemoizationPolicy<Q::Key, Q::Value>> {
    key: Q::Key,
    state: StateCell<Q::Value>,
    policy: PhantomData<MP>,
    database: PhantomData<DB>,
    lru_index: LruIndex,
}

impl<DB: Database, Q: QueryFunction<DB>, MP: MemoizationPolicy<Q::Key, Q::Value>> Slot<DB, Q, MP> {
    /// The key of the slot, for contracts.
    pub closed spec fn key(&self) -> Q::Key {
        self.key
    }

    /// The slot was made empty, and in no list of recently used slots.
    pub closed spec fn starts_empty(&self) -> bool {
        &&& call_ensures(
            new_state_cell::<Q::Value>,
            (QueryState::<Q::Value>::NotComputed,),
            self.state,
        )
        &&& self.lru_index.starts_at(usize::MAX)
    }

    /// An empty slot for `key`.
    pub fn new(key: Q::Key) -> (slot: Self)
        ensures
            slot.key() == key,
            slot.starts_empty(),
    {
        Slot {
            key,
            state: new_state_cell(QueryState::NotComputed),
            policy: PhantomData,
            database: PhantomData,
            lru_index: LruIndex::new(),
        }
    }

    /// The key of the slot.
    pub fn get_key(&self) -> (key: &Q::Key)
        ensures
            *key == self.key(),
    {
        &self.key
    }

    /// The name of the slot in `db`, as the query gives it.
    pub fn database_key(&self, db: &DB) -> (database_key: DatabaseKey)
        ensures
            reports_database_key::<DB, Q>(db, self.key(), database_key),
    {
        Q::database_key(db, &self.key)
    }

    /// Whether the policy keeps the value for `key`.
    pub fn should_memoize_value(&self, key: &Q::Key) -> (keep: bool)
        ensures
            reports_memoize::<Q::Key, Q::Value, MP>(*key, keep),
    {
        MP::should_memoize_value(key)
    }

    /// The index that the slot carries, for contracts.
    pub closed spec fn index(&self) -> LruIndex {
        self.lru_index
    }

    /// `state` is what a runtime found in the slot when it took the lock
    /// for reading. The state is shared: what the next one finds is up to
    /// all the runtimes that write to the slot.
    pub closed spec fn holds(&self, state: QueryState<Q::Value>) -> bool {
        lends(&self.state, state)
    }

    /// `state` is what a runtime found in the slot when it took the lock
    /// for writing.
    pub closed spec fn holds_for_writing(&self, state: QueryState<Q::Value>) -> bool {
        lends_for_writing(&self.state, state)
    }

    /// The place of the slot in the list of recently used slots.
    pub fn lru_index(&self) -> (index: &LruIndex)
        ensures
            *index == self.index(),
    {
        &self.lru_index
    }

    /// The durability that the slot can vouch for, or `None` while its
    /// value is being computed: what [`QueryState::durability`] gives for
    /// the state that is found in the slot.
    pub fn durability(&self, db: &DB) -> (r: Option<Durability>)
        ensures
            exists|state: QueryState<Q::Value>| #[trigger]
                self.holds(state) && match r {
                    None => state is InProgress,
                    Some(d) => !(state is InProgress) && state.vouches_for(db, d),
                },
    {
        let guard = lock_shared(&self.state);
        let state = shared_state(&guard);
        assert(self.holds(*state));
        if state.is_in_progress() {
            None
        } else {
            Some(state.durability(db))
        }
    }

    /// The line of the slot in a dump of the table: what
    /// [`QueryState::as_table_entry`] gives for the state that is found in
    /// the slot.
    pub fn as_table_entry(&self) -> (entry: Option<TableEntry<Q::Key, Q::Value>>)
        ensures
            exists|state: QueryState<Q::Value>| #[trigger]
                self.holds(state) && state.shows(self.key(), entry),
    {
        let guard = lock_shared(&self.state);
        let state = shared_state(&guard);
        assert(self.holds(*state));
        state.as_table_entry(&self.key)
    }

    /// Takes the lock for writing and evicts. Returns the state that the
    /// slot lent and the state that it got back, which is what
    /// [`QueryState::evict`] makes of the first.
    fn evict_state(&self) -> (states: Ghost<(QueryState<Q::Value>, QueryState<Q::Value>)>)
        ensures
            states@.1 == states@.0.evicted(),
            exists|borrowed: &mut ExclusiveGuard<Q::Value>, lent: &mut QueryState<Q::Value>|
                {
                    &&& call_ensures(lock_exclusive::<Q::Value>, (&self.state,), *borrowed)
                    &&& #[trigger] call_ensures(exclusive_state::<Q::Value>, (borrowed,), lent)
                    &&& *lent == states@.0
                    &&& *final(lent) == states@.1
                },
    {
        let mut guard = lock_exclusive(&self.state);
        let state = exclusive_state(&mut guard);
        let ghost before = *state;
        state.evict();
        Ghost((before, *state))
    }

    /// The slot was evicted: a runtime took the lock for writing, found
    /// `before` and left `after`.
    pub closed spec fn evicts(
        &self,
        before: QueryState<Q::Value>,
        after: QueryState<Q::Value>,
    ) -> bool {
        exists|states: Ghost<(QueryState<Q::Value>, QueryState<Q::Value>)>| #[trigger]
            call_ensures(Self::evict_state, (self,), states) && states@ == (before, after)
    }

    /// An eviction leaves what [`QueryState::evicted`] says, of the state
    /// that the slot held for the writer.
    pub proof fn lemma_evicts(&self, before: QueryState<Q::Value>, after: QueryState<Q::Value>)
        requires
            self.evicts(before, after),
        ensures
            self.holds_for_writing(before),
            after == before.evicted(),
    {
    }

    /// Discards the value of the slot, if that is safe: see
    /// [`QueryState::evict`] and [`Slot::lemma_evicts`].
    pub fn evict(&self)
        ensures
            exists|before: QueryState<Q::Value>, after: QueryState<Q::Value>| #[trigger]
                self.evicts(before, after),
    {
        let states = self.evict_state();
        assert(self.evicts(states@.0, states@.1));
    }

    /// Takes the lock for writing and sweeps. Returns the state that the
    /// slot lent and the state that it got back, which is what
    /// [`QueryState::sweep`] makes of the first.
    fn sweep_state(&self, revision_now: Revision, strategy: SweepStrategy) -> (states: Ghost<
        (QueryState<Q::Value>, QueryState<Q::Value>),
    >)
        requires
            strategy.is_legal(),
        ensures
            states@.1 == states@.0.swept(revision_now, strategy),
            exists|borrowed: &mut ExclusiveGuard<Q::Value>, lent: &mut QueryState<Q::Value>|
                {
                    &&& call_ensures(lock_exclusive::<Q::Value>, (&self.state,), *borrowed)
                    &&& #[trigger] call_ensures(exclusive_state::<Q::Value>, (borrowed,), lent)
                    &&& *lent == states@.0
                    &&& *final(lent) == states@.1
                },
    {
        let mut guard = lock_exclusive(&self.state);
        let state = exclusive_state(&mut guard);
        let ghost before = *state;
        state.sweep(revision_now, strategy);
        Ghost((before, *state))
    }

    /// The slot was swept in the revision `now`: a runtime took the lock
    /// for writing, found `before` and left `after`.
    pub closed spec fn sweeps(
        &self,
        now: Revision,
        strategy: SweepStrategy,
        before: QueryState<Q::Value>,
        after: QueryState<Q::Value>,
    ) -> bool {
        exists|states: Ghost<(QueryState<Q::Value>, QueryState<Q::Value>)>| #[trigger]
            call_ensures(Self::sweep_state, (self, now, strategy), states) && states@ == (
                before,
                after,
            )
    }

    /// A sweep leaves what [`QueryState::swept`] says, of the state that
    /// the slot held for the writer.
    pub proof fn lemma_sweeps(
        &self,
        now: Revision,
        strategy: SweepStrategy,
        before: QueryState<Q::Value>,
        after: QueryState<Q::Value>,
    )
        requires
            self.sweeps(now, strategy, before, after),
        ensures
            self.holds_for_writing(before),
            after == before.swept(now, strategy),
    {
    }

    /// Discards what `strategy` asks for: see [`QueryState::sweep`] and
    /// [`Slot::lemma_sweeps`]. The strategy must be one that discards
    /// something at some time: see [`SweepStrategy::check`].
    pub fn sweep(&self, revision_now: Revision, strategy: SweepStrategy)
        requires
            strategy.is_legal(),
        ensures
            exists|before: QueryState<Q::Value>, after: QueryState<Q::Value>| #[trigger]
                self.sweeps(revision_now, strategy, before, after),
    {
        let states = self.sweep_state(revision_now, strategy);
        assert(self.sweeps(revision_now, strategy, states@.0, states@.1));
    }

    /// What comes of a runtime of `db` that finds the runtime `other_id`
    /// at work on this slot: a cycle if the two are one, or if the
    /// database does not let the one wait for the other.
    pub open spec fn wait_outcome(&self, db: &DB, other_id: RuntimeId, cycle: bool) -> bool {
        exists|me: RuntimeId| #[trigger]
            reports_id(db, me) && if me == other_id {
                cycle
            } else {
                exists|database_key: DatabaseKey, allowed: bool|
                    reports_database_key::<DB, Q>(db, self.key(), database_key) && #[trigger]
                    reports_may_block(db, database_key, other_id, allowed) && cycle == !allowed
            }
    }

    /// Called by a runtime that finds another one at work on the slot:
    /// reports a cycle, or registers this runtime to be told the value.
    /// The value will arrive at the receiver that is returned; whoever
    /// waits for it must let go of the lock on the slot first.
    pub fn register_with_in_progress_thread(
        &self,
        db: &DB,
        other_id: RuntimeId,
        waiting: &Waiting<Q::Value>,
    ) -> (r: Result<Receiver<StampedValue<Q::Value>>, CycleDetected>)
        ensures
            self.wait_outcome(db, other_id, r is Err),
            r matches Ok(receiver) ==> registers(waiting, receiver),
    {
        let me = db.id();
        assert(reports_id(db, me));
        if other_id == me {
            Err(CycleDetected)
        } else {
            let database_key = self.database_key(db);
            let allowed = db.try_block_on(&database_key, other_id);
            assert(reports_may_block(db, database_key, other_id, allowed));
            if !allowed {
                return Err(CycleDetected);
            }
            Ok(register_waiter(waiting))
        }
    }

    /// `r` is what a look at `state` comes to, for a runtime of `db` in the
    /// revision `now`: an empty or stale state is reported as such, a value
    /// that is up to date is handed out, and a runtime that finds another
    /// at work is registered with it or told of a cycle.
    pub open spec fn probes(
        &self,
        db: &DB,
        state: QueryState<Q::Value>,
        now: Revision,
        r: ProbeState<Q::Value>,
    ) -> bool {
        match state {
            QueryState::NotComputed => r is StaleOrAbsent,
            QueryState::InProgress { id, waiting } => match r {
                ProbeState::UpToDate(Err(_)) => self.wait_outcome(db, id, true),
                ProbeState::BlockedOn(other_id, receiver) => other_id == id && self.wait_outcome(
                    db,
                    id,
                    false,
                ) && registers(&waiting, receiver),
                _ => false,
            },
            QueryState::Memoized(memo) => if state.is_up_to_date(now) {
                r matches ProbeState::UpToDate(Ok(stamped)) && memo.stamps(stamped)
            } else {
                r is StaleOrAbsent
            },
        }
    }

    /// Looks at `state`, the state of this slot, on behalf of a runtime of
    /// `db` that holds the lock: a value that is up to date is handed out;
    /// if another runtime computes the value, this one is registered to
    /// wait for it, or a cycle is reported. Nothing is computed and nothing
    /// is waited for.
    pub fn probe(&self, db: &DB, state: &QueryState<Q::Value>, revision_now: Revision) -> (r:
        ProbeState<Q::Value>)
        ensures
            self.probes(db, *state, revision_now, r),
    {
        match state {
            QueryState::NotComputed => ProbeState::StaleOrAbsent,
            QueryState::InProgress { id, waiting } => {
                let other_id = *id;
                match self.register_with_in_progress_thread(db, other_id, waiting) {
                    Ok(receiver) => ProbeState::BlockedOn(other_id, receiver),
                    Err(cycle) => ProbeState::UpToDate(Err(cycle)),
                }
            },
            QueryState::Memoized(_) => {
                match state.current_value(revision_now) {
                    Some(stamped) => ProbeState::UpToDate(Ok(stamped)),
                    None => ProbeState::StaleOrAbsent,
                }
            },
        }
    }

    /// `stamped` is what a runtime of `db` came away with that waited on
    /// `receiver`: the value that arrived, or, if the computation was given
    /// up, what the database put in its place.
    pub open spec fn waited(
        db: &DB,
        receiver: Receiver<StampedValue<Q::Value>>,
        stamped: StampedValue<Q::Value>,
    ) -> bool {
        exists|value: Option<StampedValue<Q::Value>>| #[trigger]
            receives(receiver, value) && match value {
                Some(told) => stamped == told,
                None => reports_propagated_panic(db, stamped),
            }
    }

    /// The database `db` was told that its runtime is about to wait for
    /// the runtime `other_id` to finish this slot.
    pub open spec fn announced_wait(&self, db: &DB, other_id: RuntimeId) -> bool {
        exists|me: RuntimeId, database_key: DatabaseKey|
            {
                &&& reports_id(db, me)
                &&& reports_database_key::<DB, Q>(db, self.key(), database_key)
                &&& #[trigger] reports_event(
                    db,
                    Event {
                        runtime_id: me,
                        kind: EventKind::WillBlockOn { other_runtime_id: other_id, database_key },
                    },
                )
            }
    }

    /// Blocks until the runtime that computes the value hands it out. If
    /// that runtime gave up, the database is told and has the last word.
    fn block_on(&self, db: &DB, receiver: Receiver<StampedValue<Q::Value>>) -> (stamped:
        StampedValue<Q::Value>)
        ensures
            Self::waited(db, receiver, stamped),
    {
        match wait_for_value(receiver) {
            Some(stamped) => stamped,
            None => db.on_propagated_panic(),
        }
    }

    /// What comes of a value that was computed again with the stamp
    /// `changed_at`, where `old_memo` is what the slot held before.
    pub open spec fn backdating_outcome(
        old_memo: Option<Memo<Q::Value>>,
        value: Q::Value,
        durability: Durability,
        changed_at: Revision,
        backdated: Revision,
    ) -> bool {
        match old_memo {
            Some(old) => if old.allows_backdating_to(durability) {
                exists|equal: bool| #[trigger]
                    reports_equal::<Q::Key, Q::Value, MP>(old.value->0, value, equal) && backdated
                        == old.backdated(durability, changed_at, equal)
            } else {
                backdated == changed_at
            },
            None => backdated == changed_at,
        }
    }

    /// If the new value is equal to the old one, it did not really change,
    /// even if some of its inputs did: it takes over the stamp of the old
    /// value, so that those who read it need not run again.
    pub fn backdate(old_memo: &Option<Memo<Q::Value>>, result: &mut ComputedQueryResult<Q::Value>)
        ensures
            final(result).value == old(result).value,
            final(result).durability == old(result).durability,
            final(result).dependencies == old(result).dependencies,
            Self::backdating_outcome(
                *old_memo,
                old(result).value,
                old(result).durability,
                old(result).changed_at,
                final(result).changed_at,
            ),
    {
        match old_memo {
            Some(old) => {
                if old.allows_backdating(result.durability) {
                    match &old.value {
                        Some(old_value) => {
                            let equal = MP::memoized_value_eq(old_value, &result.value);
                            assert(reports_equal::<Q::Key, Q::Value, MP>(
                                *old_value,
                                result.value,
                                equal,
                            ));
                            if equal {
                                result.changed_at = old.changed_at;
                            }
                        },
                        None => {},
                    }
                }
            },
            None => {},
        }
    }

    /// `computed` and `revision_after` are what a run of the query
    /// function comes to: the database was told that the query known as
    /// `database_key` begins; the query function was called for the key of
    /// the slot; the database was handed what the function returned and
    /// made `computed` of it; and `revision_after` is a revision that the
    /// database reported.
    pub open spec fn runs(
        &self,
        db: &DB,
        database_key: DatabaseKey,
        computed: ComputedQueryResult<Result<Q::Value, CycleDetected>>,
        revision_after: Revision,
    ) -> bool {
        &&& reports_begun(db, database_key)
        &&& exists|value: Result<Q::Value, CycleDetected>|
            reports_executed::<DB, Q>(db, self.key(), value) && #[trigger] reports_ended(
                db,
                database_key,
                value,
                computed,
            )
        &&& reports_revision(db, revision_after)
    }

    /// Runs the query function for the key of the slot, under the name
    /// `database_key`: tells the database that the query begins, calls the
    /// function, hands what it returned to the database, and then asks the
    /// database which revision it is in. Returns what the database made of
    /// the run, and that revision.
    fn run_query(&self, db: &DB, database_key: DatabaseKey) -> (ran: (
        ComputedQueryResult<Result<Q::Value, CycleDetected>>,
        Revision,
    ))
        ensures
            self.runs(db, database_key, ran.0, ran.1),
    {
        db.begin_query(&database_key);
        let value = Q::execute(db, &self.key);
        assert(reports_executed::<DB, Q>(db, self.key(), value));
        let computed = db.end_query(&database_key, value);
        assert(reports_ended(db, database_key, value, computed));
        // A query function must not write to the inputs. That cannot be
        // seen from here; what can be seen is whether the revision moved.
        let revision_after = db.current_revision();
        (computed, revision_after)
    }

    /// `computed` and `revision_after` come from one run of the query
    /// function for the key of this slot, under the name `database_key`,
    /// in `db`, with the revision asked for once the function had
    /// returned: see [`Slot::runs`] and [`Slot::lemma_ran_query`].
    pub closed spec fn ran_query(
        &self,
        db: &DB,
        database_key: DatabaseKey,
        computed: ComputedQueryResult<Result<Q::Value, CycleDetected>>,
        revision_after: Revision,
    ) -> bool {
        call_ensures(Self::run_query, (self, db, database_key), (computed, revision_after))
    }

    /// What comes of a run is what the query function returned for the key
    /// of the slot, as the database handed it back, and a revision that
    /// the database reported.
    pub proof fn lemma_ran_query(
        &self,
        db: &DB,
        database_key: DatabaseKey,
        computed: ComputedQueryResult<Result<Q::Value, CycleDetected>>,
        revision_after: Revision,
    )
        requires
            self.ran_query(db, database_key, computed, revision_after),
        ensures
            self.runs(db, database_key, computed, revision_after),
    {
    }

    /// `r` is what a run of the query function comes to, where `old_memo`
    /// is what the slot held before and `revision_after` the revision of
    /// the database after the run. A cycle that the function reports is
    /// handed on. A revision other than `now` is an error: an input was
    /// written while the function ran. Else the result is the memo to keep
    /// and the stamped value to hand out: they record what the run
    /// returned, with the stamp of the old value if the new one counts as
    /// equal and is no less durable.
    pub open spec fn concludes(
        &self,
        old_memo: Option<Memo<Q::Value>>,
        computed: ComputedQueryResult<Result<Q::Value, CycleDetected>>,
        revision_after: Revision,
        now: Revision,
        r: Result<(Memo<Q::Value>, StampedValue<Q::Value>), ReadError>,
    ) -> bool {
        if computed.value is Err {
            r == Err::<(Memo<Q::Value>, StampedValue<Q::Value>), ReadError>(ReadError::Cycle)
        } else if revision_after != now {
            r == Err::<(Memo<Q::Value>, StampedValue<Q::Value>), ReadError>(
                ReadError::RevisionAltered,
            )
        } else {
            r is Ok && exists|backdated: Revision, keep: bool| #[trigger]
                self.keeps_run(old_memo, computed, backdated, keep, now, r->Ok_0)
        }
    }

    /// `pair` is the memo to keep and the stamped value to hand out for a
    /// run of the query function that came to a value: they record the
    /// value, the durability and the inputs of the run, and the stamp
    /// `backdated`, which is that of the run or, by backdating, that of
    /// the old value. The memo keeps a copy of the value if `keep` is set,
    /// which is what the policy answered for the key of the slot.
    pub open spec fn keeps_run(
        &self,
        old_memo: Option<Memo<Q::Value>>,
        computed: ComputedQueryResult<Result<Q::Value, CycleDetected>>,
        backdated: Revision,
        keep: bool,
        now: Revision,
        pair: (Memo<Q::Value>, StampedValue<Q::Value>),
    ) -> bool {
        &&& computed.value matches Ok(value)
        &&& reports_memoize::<Q::Key, Q::Value, MP>(self.key(), keep)
        &&& Self::backdating_outcome(
            old_memo,
            value,
            computed.durability,
            computed.changed_at,
            backdated,
        )
        &&& Memo::records(
            pair.0,
            pair.1,
            ComputedQueryResult {
                value,
                durability: computed.durability,
                changed_at: backdated,
                dependencies: computed.dependencies,
            },
            now,
            keep,
        )
    }

    /// Makes of a run of the query function what the slot is to keep and
    /// to hand out: see [`Slot::concludes`].
    pub fn conclude(
        &self,
        old_memo: &Option<Memo<Q::Value>>,
        computed: ComputedQueryResult<Result<Q::Value, CycleDetected>>,
        revision_after: Revision,
        revision_now: Revision,
    ) -> (r: Result<(Memo<Q::Value>, StampedValue<Q::Value>), ReadError>)
        ensures
            self.concludes(*old_memo, computed, revision_after, revision_now, r),
    {
        let ComputedQueryResult { value, durability, changed_at, dependencies } = computed;
        let value = match value {
            Ok(value) => value,
            Err(_) => {
                return Err(ReadError::Cycle);
            },
        };
        if revision_after != revision_now {
            return Err(ReadError::RevisionAltered);
        }
        let mut result = ComputedQueryResult { value, durability, changed_at, dependencies };
        Self::backdate(old_memo, &mut result);

        let keep = self.should_memoize_value(&self.key);
        let ghost backdated = result;
        let pair = Memo::from_computed(result, revision_now, keep);
        proof {
            let value = computed.value->Ok_0;
            assert(backdated == (ComputedQueryResult {
                value,
                durability: computed.durability,
                changed_at: backdated.changed_at,
                dependencies: computed.dependencies,
            }));
            assert(reports_memoize::<Q::Key, Q::Value, MP>(self.key(), keep));
            assert(Self::backdating_outcome(
                *old_memo,
                value,
                computed.durability,
                computed.changed_at,
                backdated.changed_at,
            ));
            assert(Memo::records(
                pair.0,
                pair.1,
                ComputedQueryResult {
                    value,
                    durability: computed.durability,
                    changed_at: backdated.changed_at,
                    dependencies: computed.dependencies,
                },
                revision_now,
                keep,
            ));
            assert(self.keeps_run(
                *old_memo,
                computed,
                backdated.changed_at,
                keep,
                revision_now,
                pair,
            ));
            assert(computed.value is Ok && revision_after == revision_now);
            let concluded: Result<(Memo<Q::Value>, StampedValue<Q::Value>), ReadError> = Ok(pair);
            assert(concluded->Ok_0 == pair);
        }
        Ok(pair)
    }

    /// The database `db` was told that its runtime found the old value of
    /// this slot, known as `database_key`, to be still good.
    pub open spec fn announced_validation(&self, db: &DB, database_key: DatabaseKey) -> bool {
        exists|me: RuntimeId|
            reports_id(db, me) && #[trigger] reports_event(
                db,
                Event { runtime_id: me, kind: EventKind::DidValidateMemoizedValue { database_key } },
            )
    }

    /// `r` is what comes of bringing `old_memo` up to date in the revision
    /// `now`, for the slot known as `database_key`, and `new_memo` is what
    /// is left in its place.
    ///
    /// Either the old value was found to be still good: then the old memo
    /// is verified in `now`, its value is handed out with its stamps, and
    /// the database is told. Or it was not: then the query function ran,
    /// and what the run came to decides, see [`Slot::concludes`]. A result
    /// with a value leaves its memo; a cycle or a revision that moved
    /// leaves the memo as it was.
    pub open spec fn refreshes(
        &self,
        db: &DB,
        database_key: DatabaseKey,
        old_memo: Option<Memo<Q::Value>>,
        new_memo: Option<Memo<Q::Value>>,
        now: Revision,
        r: Result<StampedValue<Q::Value>, ReadError>,
    ) -> bool {
        ||| {
            &&& old_memo matches Some(old)
            &&& old.validation_outcome(db, true)
            &&& r matches Ok(stamped)
            &&& old.stamps(stamped)
            &&& new_memo == Some(old.verified_in(now))
            &&& self.announced_validation(db, database_key)
        }
        ||| {
            &&& old_memo matches Some(old) ==> old.validation_outcome(db, false)
            &&& exists|
                computed: ComputedQueryResult<Result<Q::Value, CycleDetected>>,
                revision_after: Revision,
                concluded: Result<(Memo<Q::Value>, StampedValue<Q::Value>), ReadError>,
            |
                {
                    &&& #[trigger] self.ran_query(db, database_key, computed, revision_after)
                    &&& #[trigger] self.concludes(old_memo, computed, revision_after, now, concluded)
                    &&& match concluded {
                        Ok(pair) => new_memo == Some(pair.0) && r == Ok::<
                            StampedValue<Q::Value>,
                            ReadError,
                        >(pair.1),
                        Err(error) => new_memo == old_memo && r == Err::<
                            StampedValue<Q::Value>,
                            ReadError,
                        >(error),
                    }
                }
        }
    }

    /// Brings the memo of the slot up to date in `revision_now`, for the
    /// runtime that holds the marker of the slot. `memo` is what the slot
    /// held before. If its value is still good, it is verified; else the
    /// query runs, and `memo` becomes what it came to. Either way the value
    /// is returned with its stamps.
    ///
    /// If the query function reports a cycle, or the database has moved to
    /// another revision while the function ran, `memo` stays as it was.
    pub fn refresh(
        &self,
        db: &DB,
        database_key: DatabaseKey,
        memo: &mut Option<Memo<Q::Value>>,
        revision_now: Revision,
    ) -> (r: Result<StampedValue<Q::Value>, ReadError>)
        ensures
            self.refreshes(db, database_key, *old(memo), *final(memo), revision_now, r),
    {
        // An old value may be stale now: there has been a new revision
        // since it was verified. First of all, find out whether the inputs
        // that it was computed from are out of date.
        match memo {
            Some(old) => {
                match old.validate_memoized_value(db, revision_now) {
                    Some(stamped) => {
                        let runtime_id = db.id();
                        let event = Event {
                            runtime_id,
                            kind: EventKind::DidValidateMemoizedValue { database_key },
                        };
                        db.salsa_event(event);
                        assert(reports_id(db, runtime_id) && reports_event(db, event));
                        return Ok(stamped);
                    },
                    None => {},
                }
            },
            None => {},
        }

        // The query was never executed, or its value may be stale, or
        // there is no value. Execute.
        let (computed, revision_after) = self.run_query(db, database_key);
        assert(self.ran_query(db, database_key, computed, revision_after));
        let concluded = self.conclude(memo, computed, revision_after, revision_now);
        match concluded {
            Ok((new_memo, stamped)) => {
                *memo = Some(new_memo);
                Ok(stamped)
            },
            Err(error) => Err(error),
        }
    }

    /// `r` is what the second phase of a read by a runtime of `db` comes
    /// to in the revision `now`: see `read_upgrade`.
    pub closed spec fn upgrades(
        &self,
        db: &DB,
        now: Revision,
        r: Result<StampedValue<Q::Value>, ReadError>,
    ) -> bool {
        call_ensures(Self::read_upgrade, (self, db, now), r)
    }

    /// `r` is what a read by a runtime of `db` comes to in the revision
    /// `now`, where `probed` is what the first look at the slot came to: a
    /// value that is up to date is the result, and so is a cycle; a value
    /// that another runtime computes is waited for, after the database was
    /// told; else the second phase of the read decides.
    pub open spec fn reads(
        &self,
        db: &DB,
        now: Revision,
        probed: ProbeState<Q::Value>,
        r: Result<StampedValue<Q::Value>, ReadError>,
    ) -> bool {
        match probed {
            ProbeState::StaleOrAbsent => self.upgrades(db, now, r),
            _ => self.settled_by(db, probed, r),
        }
    }

    /// `r` is the result of a read that a look at the slot settles: a
    /// value that is up to date is the result, and so is a cycle; a value
    /// that another runtime computes is waited for, after the database was
    /// told.
    pub open spec fn settled_by(
        &self,
        db: &DB,
        probed: ProbeState<Q::Value>,
        r: Result<StampedValue<Q::Value>, ReadError>,
    ) -> bool {
        match probed {
            ProbeState::UpToDate(Ok(stamped)) => r == Ok::<StampedValue<Q::Value>, ReadError>(
                stamped,
            ),
            ProbeState::UpToDate(Err(_)) => r == Err::<StampedValue<Q::Value>, ReadError>(
                ReadError::Cycle,
            ),
            ProbeState::BlockedOn(other_id, receiver) => r matches Ok(stamped)
                && self.announced_wait(db, other_id) && Self::waited(db, receiver, stamped),
            ProbeState::StaleOrAbsent => false,
        }
    }

    /// What comes of the runtime `me` of `db` giving up the marker that it
    /// had put into the slot known as `database_key`, where `before` is
    /// the state that the slot lent for writing and `after` the state that
    /// it got back. A slot that holds the marker gets `memo` in its place
    /// if there is a value to hand out, and is left empty if there is
    /// none; the database removes the waits for the runtime, and those who
    /// waited get a copy of the value. A slot that does not hold the marker
    /// stays as it is, and that is the error.
    pub open spec fn gives_up_marker(
        db: &DB,
        me: RuntimeId,
        database_key: DatabaseKey,
        memo: Option<Memo<Q::Value>>,
        value: Option<StampedValue<Q::Value>>,
        before: QueryState<Q::Value>,
        after: QueryState<Q::Value>,
        done: Result<(), PlaceholderLost>,
    ) -> bool {
        &&& after == before.placeholder_overwritten(
            me,
            if value is Some {
                memo
            } else {
                None
            },
        )
        &&& done is Ok <==> before.owner() == Some(me)
        &&& done is Ok ==> reports_unblocked(db, database_key)
        &&& done is Ok ==> (value matches Some(told) ==> exists|taken: nat| #[trigger]
            notifies(before->waiting, told, taken))
    }

    /// What the runtime `me` of `db` makes of the slot once it holds the
    /// marker: `refreshed` is what bringing the memo up to date came to,
    /// and `memo` what that left. A value is put into the slot with its
    /// memo and handed out; without a value, the marker is taken away and
    /// the error is handed on. A marker that is not found is an error of
    /// its own. See [`Slot::lemma_finishes`].
    pub closed spec fn finishes(
        &self,
        db: &DB,
        me: RuntimeId,
        database_key: DatabaseKey,
        memo: Option<Memo<Q::Value>>,
        refreshed: Result<StampedValue<Q::Value>, ReadError>,
        r: Result<StampedValue<Q::Value>, ReadError>,
    ) -> bool {
        exists|done: Result<(), PlaceholderLost>|
            {
                &&& #[trigger] Self::hands_over(
                    PanicGuard { database_key, slot: self, memo, db, runtime_id: me, armed: true },
                    refreshed,
                    done,
                )
                &&& r == match done {
                    Ok(_) => refreshed,
                    Err(_) => Err(ReadError::PlaceholderLost),
                }
            }
    }

    /// The value that a refreshed memo came with, if it came with one.
    pub open spec fn value_of(refreshed: Result<StampedValue<Q::Value>, ReadError>) -> Option<
        StampedValue<Q::Value>,
    > {
        match refreshed {
            Ok(stamped) => Some(stamped),
            Err(_) => None,
        }
    }

    /// The end of a computation gives up the marker: the slot lent a state
    /// for writing and got back what [`Slot::gives_up_marker`] says, and
    /// the result is what bringing the memo up to date came to, unless the
    /// marker was lost.
    pub proof fn lemma_finishes(
        &self,
        db: &DB,
        me: RuntimeId,
        database_key: DatabaseKey,
        memo: Option<Memo<Q::Value>>,
        refreshed: Result<StampedValue<Q::Value>, ReadError>,
        r: Result<StampedValue<Q::Value>, ReadError>,
    )
        requires
            self.finishes(db, me, database_key, memo, refreshed, r),
        ensures
            exists|
                before: QueryState<Q::Value>,
                after: QueryState<Q::Value>,
                done: Result<(), PlaceholderLost>,
            |
                {
                    &&& self.holds_for_writing(before)
                    &&& #[trigger] Self::gives_up_marker(
                        db,
                        me,
                        database_key,
                        memo,
                        Self::value_of(refreshed),
                        before,
                        after,
                        done,
                    )
                    &&& r == match done {
                        Ok(_) => refreshed,
                        Err(_) => Err(ReadError::PlaceholderLost),
                    }
                },
    {
    }

    /// `done` is what comes of the guard giving up its marker: for a value
    /// if there is one, without a value else.
    spec fn hands_over(
        guard: PanicGuard<DB, Q, MP>,
        refreshed: Result<StampedValue<Q::Value>, ReadError>,
        done: Result<(), PlaceholderLost>,
    ) -> bool {
        match refreshed {
            Ok(stamped) => call_ensures(PanicGuard::<DB, Q, MP>::proceed, (guard, &stamped), done),
            Err(_) => call_ensures(PanicGuard::<DB, Q, MP>::cancel, (guard,), done),
        }
    }

    /// What the second phase of a read by the runtime `me` of `db` comes
    /// to, where `before` is the state that the slot lent for writing and
    /// `after` the state that it got back. Unless the look at the state
    /// settles the read, the marker of `me` goes into the slot, with
    /// nobody waiting, and the memo that was there is brought up to date;
    /// then the marker is given up.
    pub open spec fn upgrades_from(
        &self,
        db: &DB,
        now: Revision,
        me: RuntimeId,
        before: QueryState<Q::Value>,
        after: QueryState<Q::Value>,
        r: Result<StampedValue<Q::Value>, ReadError>,
    ) -> bool {
        exists|probed: ProbeState<Q::Value>| #[trigger]
            self.probes(db, before, now, probed) && match probed {
                ProbeState::StaleOrAbsent => after.owner() == Some(me) && is_new_waiting(
                    after->waiting,
                ) && exists|
                    database_key: DatabaseKey,
                    memo: Option<Memo<Q::Value>>,
                    refreshed: Result<StampedValue<Q::Value>, ReadError>,
                |
                    reports_database_key::<DB, Q>(db, self.key(), database_key) && #[trigger]
                    self.refreshes(db, database_key, before.memo(), memo, now, refreshed)
                        && self.finishes(db, me, database_key, memo, refreshed, r),
                _ => after == before && self.settled_by(db, probed, r),
            }
    }

    /// The second phase of a read takes the lock for writing, and what it
    /// comes to is what [`Slot::upgrades_from`] says of the state that it
    /// finds and the state that it leaves.
    pub proof fn lemma_upgrades(
        &self,
        db: &DB,
        now: Revision,
        r: Result<StampedValue<Q::Value>, ReadError>,
    )
        requires
            self.upgrades(db, now, r),
        ensures
            exists|me: RuntimeId, before: QueryState<Q::Value>, after: QueryState<Q::Value>|
                {
                    &&& reports_id(db, me)
                    &&& self.holds_for_writing(before)
                    &&& #[trigger] self.upgrades_from(db, now, me, before, after, r)
                },
    {
    }

    /// Reads the value of the query for the key of the slot, on behalf of
    /// the runtime of `db`. A value that is up to date is handed out as it
    /// is. A value that another runtime is computing is waited for. Else
    /// this runtime brings the slot up to date: it validates the old value
    /// or runs the query, see [`Slot::refresh`].
    ///
    /// The state of the slot is shared with other runtimes. The result is
    /// stated of the revision that the database reported and of the state
    /// that was found in the slot: see [`Slot::probes`] and
    /// [`Slot::reads`].
    pub fn read(&self, db: &DB) -> (r: Result<StampedValue<Q::Value>, ReadError>)
        ensures
            exists|now: Revision, state: QueryState<Q::Value>, probed: ProbeState<Q::Value>|
                {
                    &&& reports_revision(db, now)
                    &&& self.holds(state)
                    &&& #[trigger] self.probes(db, state, now, probed)
                    &&& self.reads(db, now, probed, r)
                },
    {
        // Nobody moves the revision while this runs: either `db` is a
        // frozen handle, or the thread that writes is this one, and it
        // cannot write while it reads.
        let revision_now = db.current_revision();
        assert(reports_revision(db, revision_now));

        // First, look with the lock held for reading.
        let probed = {
            let guard = lock_shared(&self.state);
            let state = shared_state(&guard);
            assert(self.holds(*state));
            self.probe(db, state, revision_now)
        };
        match probed {
            ProbeState::UpToDate(Ok(stamped)) => Ok(stamped),
            ProbeState::UpToDate(Err(_)) => Err(ReadError::Cycle),
            ProbeState::BlockedOn(other_id, receiver) => Ok(
                self.wait_for(db, other_id, receiver),
            ),
            ProbeState::StaleOrAbsent => self.read_upgrade(db, revision_now),
        }
    }

    /// Tells the database that this runtime is about to wait for the
    /// runtime `other_id`, and waits. The lock on the slot must have been
    /// let go of.
    fn wait_for(
        &self,
        db: &DB,
        other_id: RuntimeId,
        receiver: Receiver<StampedValue<Q::Value>>,
    ) -> (stamped: StampedValue<Q::Value>)
        ensures
            self.announced_wait(db, other_id),
            Self::waited(db, receiver, stamped),
    {
        let runtime_id = db.id();
        let database_key = self.database_key(db);
        let event = Event {
            runtime_id,
            kind: EventKind::WillBlockOn { other_runtime_id: other_id, database_key },
        };
        db.salsa_event(event);
        assert(reports_event(db, event));
        self.block_on(db, receiver)
    }

    /// Second phase of a read: looks at the slot again, this time with the
    /// lock held for writing, and if the value is still not there puts the
    /// marker of this runtime into the slot, lets go of the lock and brings
    /// the slot up to date.
    fn read_upgrade(&self, db: &DB, revision_now: Revision) -> (r: Result<
        StampedValue<Q::Value>,
        ReadError,
    >)
        ensures
            exists|
                me: RuntimeId,
                borrowed: &mut ExclusiveGuard<Q::Value>,
                lent: &mut QueryState<Q::Value>,
            |
                {
                    &&& reports_id(db, me)
                    &&& call_ensures(lock_exclusive::<Q::Value>, (&self.state,), *borrowed)
                    &&& #[trigger] call_ensures(exclusive_state::<Q::Value>, (borrowed,), lent)
                    &&& #[trigger] self.upgrades_from(
                        db,
                        revision_now,
                        me,
                        *lent,
                        *final(lent),
                        r,
                    )
                },
    {
        let runtime_id = db.id();
        assert(reports_id(db, runtime_id));
        let ghost before: QueryState<Q::Value>;
        let ghost after: QueryState<Q::Value>;
        let (probed, old_memo) = {
            let mut guard = lock_exclusive(&self.state);
            let state = exclusive_state(&mut guard);
            proof {
                before = *state;
            }
            let probed = self.probe(db, &*state, revision_now);
            let old_memo = match &probed {
                ProbeState::StaleOrAbsent => state.begin_compute(runtime_id),
                _ => None,
            };
            proof {
                after = *state;
            }
            (probed, old_memo)
        };
        match probed {
            ProbeState::UpToDate(Ok(stamped)) => {
                proof {
                    assert(self.settled_by(db, probed, Ok(stamped)));
                    assert(self.upgrades_from(db, revision_now, runtime_id, before, after, Ok(stamped)));
                }
                return Ok(stamped);
            },
            ProbeState::UpToDate(Err(_)) => {
                proof {
                    assert(self.upgrades_from(
                        db,
                        revision_now,
                        runtime_id,
                        before,
                        after,
                        Err(ReadError::Cycle),
                    ));
                }
                return Err(ReadError::Cycle);
            },
            ProbeState::BlockedOn(other_id, receiver) => {
                let stamped = self.wait_for(db, other_id, receiver);
                proof {
                    assert(self.settled_by(db, probed, Ok(stamped)));
                    assert(self.upgrades_from(db, revision_now, runtime_id, before, after, Ok(stamped)));
                }
                return Ok(stamped);
            },
            ProbeState::StaleOrAbsent => {},
        }

        let database_key = self.database_key(db);
        let mut panic_guard = PanicGuard::new(database_key, self, old_memo, db, runtime_id);
        let refreshed = self.refresh(db, database_key, &mut panic_guard.memo, revision_now);
        let ghost memo = panic_guard.memo;
        let ghost guard = panic_guard;
        assert(self.refreshes(db, database_key, before.memo(), memo, revision_now, refreshed));
        assert(guard == (PanicGuard {
            database_key,
            slot: self,
            memo,
            db,
            runtime_id,
            armed: true,
        }));
        let r = match refreshed {
            Ok(stamped) => {
                let done = panic_guard.proceed(&stamped);
                proof {
                    assert(Self::hands_over(guard, refreshed, done));
                }
                match done {
                    Ok(()) => Ok(stamped),
                    Err(_) => Err(ReadError::PlaceholderLost),
                }
            },
            Err(error) => {
                let done = panic_guard.cancel();
                proof {
                    assert(Self::hands_over(guard, refreshed, done));
                }
                match done {
                    Ok(()) => Err(error),
                    Err(_) => Err(ReadError::PlaceholderLost),
                }
            },
        };
        proof {
            assert(self.finishes(db, runtime_id, database_key, memo, refreshed, r));
            assert(self.upgrades_from(db, revision_now, runtime_id, before, after, r));
        }
        r
    }

    /// `r` is what a runtime of `db` is to do that finds `state` in the
    /// slot, in the revision `now`, and wants to know whether the value may
    /// have changed after `revision`.
    pub open spec fn plans_change(
        &self,
        db: &DB,
        state: QueryState<Q::Value>,
        revision: Revision,
        now: Revision,
        r: ChangePlan<Q::Value>,
    ) -> bool {
        match state {
            QueryState::NotComputed => r == ChangePlan::<Q::Value>::Probe(ChangeProbe::Known(true)),
            QueryState::InProgress { id, waiting } => match r {
                ChangePlan::Probe(probe) => probe == ChangeProbe::Known(true) && self.wait_outcome(
                    db,
                    id,
                    true,
                ),
                ChangePlan::BlockedOn(receiver) => self.wait_outcome(db, id, false) && registers(
                    &waiting,
                    receiver,
                ),
            },
            QueryState::Memoized(memo) => r matches ChangePlan::Probe(probe)
                && memo.change_probe_outcome(db, revision, now, probe),
        }
    }

    /// Looks at `state`, the state of this slot, on behalf of a runtime of
    /// `db` that holds the lock and wants to know whether the value may
    /// have changed after `revision`. An empty slot counts as changed: its
    /// memo may have been discarded. So does a cycle.
    pub fn plan_change(
        &self,
        db: &DB,
        state: &QueryState<Q::Value>,
        revision: Revision,
        revision_now: Revision,
    ) -> (r: ChangePlan<Q::Value>)
        ensures
            self.plans_change(db, *state, revision, revision_now, r),
    {
        match state {
            // Somebody depends on this slot, and it holds nothing: it must
            // have been found out of date and emptied.
            QueryState::NotComputed => ChangePlan::Probe(ChangeProbe::Known(true)),
            // The value is being computed. Unless that runtime depends on
            // this one, wait for it and look at the stamp of what comes.
            QueryState::InProgress { id, waiting } => {
                match self.register_with_in_progress_thread(db, *id, waiting) {
                    Ok(receiver) => ChangePlan::BlockedOn(receiver),
                    Err(_) => ChangePlan::Probe(ChangeProbe::Known(true)),
                }
            },
            QueryState::Memoized(memo) => ChangePlan::Probe(
                memo.probe_change(db, revision, revision_now),
            ),
        }
    }

    /// Records in the slot what a walk over the inputs of its memo came
    /// to. Returns the state that the slot lent for writing and the state
    /// that it got back, which is what [`QueryState::settle`] makes of the
    /// first.
    fn settle(&self, revision_now: Revision, maybe_changed: bool) -> (states: Ghost<
        (QueryState<Q::Value>, QueryState<Q::Value>),
    >)
        ensures
            states@.1 == states@.0.settled(revision_now, maybe_changed),
            exists|borrowed: &mut ExclusiveGuard<Q::Value>, lent: &mut QueryState<Q::Value>|
                {
                    &&& call_ensures(lock_exclusive::<Q::Value>, (&self.state,), *borrowed)
                    &&& #[trigger] call_ensures(exclusive_state::<Q::Value>, (borrowed,), lent)
                    &&& *lent == states@.0
                    &&& *final(lent) == states@.1
                },
    {
        let mut guard = lock_exclusive(&self.state);
        let state = exclusive_state(&mut guard);
        let ghost before = *state;
        state.settle(revision_now, maybe_changed);
        Ghost((before, *state))
    }

    /// The outcome `maybe_changed` of a walk over the inputs was recorded
    /// in the slot, in the revision `now`: a runtime took the lock for
    /// writing, found `before` and left `after`.
    pub closed spec fn settles(
        &self,
        now: Revision,
        maybe_changed: bool,
        before: QueryState<Q::Value>,
        after: QueryState<Q::Value>,
    ) -> bool {
        exists|states: Ghost<(QueryState<Q::Value>, QueryState<Q::Value>)>| #[trigger]
            call_ensures(Self::settle, (self, now, maybe_changed), states) && states@ == (
                before,
                after,
            )
    }

    /// Recording the outcome of a walk leaves what [`QueryState::settled`]
    /// says, of the state that the slot held for the writer.
    pub proof fn lemma_settles(
        &self,
        now: Revision,
        maybe_changed: bool,
        before: QueryState<Q::Value>,
        after: QueryState<Q::Value>,
    )
        requires
            self.settles(now, maybe_changed, before, after),
        ensures
            self.holds_for_writing(before),
            after == before.settled(now, maybe_changed),
    {
    }

    /// The outcome `maybe_changed` of a walk over the inputs was recorded
    /// in the slot, in the revision `now`.
    pub open spec fn records_walk(&self, now: Revision, maybe_changed: bool) -> bool {
        exists|before: QueryState<Q::Value>, after: QueryState<Q::Value>| #[trigger]
            self.settles(now, maybe_changed, before, after)
    }

    /// `r` is the answer to the question whether the value may have changed
    /// after `revision`, for a runtime of `db` in the revision `now` that
    /// is to follow `plan`. The stamp of a value that is waited for, or
    /// read, is held against `revision`; a cycle counts as a change. What
    /// a walk over the inputs comes to is the answer, and is recorded in
    /// the slot.
    pub open spec fn answers_change(
        &self,
        db: &DB,
        revision: Revision,
        now: Revision,
        plan: ChangePlan<Q::Value>,
        r: Result<bool, ReadError>,
    ) -> bool {
        match plan {
            ChangePlan::BlockedOn(receiver) => exists|stamped: StampedValue<Q::Value>| #[trigger]
                Self::waited(db, receiver, stamped) && r == Ok::<bool, ReadError>(
                    stamped.changed_at@ > revision@,
                ),
            ChangePlan::Probe(ChangeProbe::Known(changed)) => r == Ok::<bool, ReadError>(changed),
            ChangePlan::Probe(ChangeProbe::Reread) => exists|
                read: Result<StampedValue<Q::Value>, ReadError>,
            | #[trigger]
                self.upgrades(db, now, read) && r == match read {
                    Ok(stamped) => Ok::<bool, ReadError>(stamped.changed_at@ > revision@),
                    Err(ReadError::Cycle) => Ok(true),
                    Err(error) => Err(error),
                },
            ChangePlan::Probe(ChangeProbe::Unchanged) => r == Ok::<bool, ReadError>(false)
                && self.records_walk(now, false),
            ChangePlan::Probe(ChangeProbe::Walk(inputs)) => exists|first: Option<usize>| #[trigger]
                walks(db, inputs@, revision, first) && r == Ok::<bool, ReadError>(first is Some)
                    && self.records_walk(now, first is Some),
        }
    }

    /// Whether the value of the query for the key of the slot may have
    /// changed after `revision`. Asked by a runtime that validates a memo
    /// which has this slot among its inputs.
    ///
    /// The runtime looks at the state that it finds in the slot, see
    /// [`Slot::plan_change`], and does what that calls for, see
    /// [`Slot::answers_change`]. A read that the question leads to may
    /// fail; a cycle counts as a change.
    pub fn maybe_changed_since(&self, db: &DB, revision: Revision) -> (r: Result<bool, ReadError>)
        ensures
            !(r matches Err(ReadError::Cycle)),
            exists|now: Revision, state: QueryState<Q::Value>, plan: ChangePlan<Q::Value>|
                {
                    &&& reports_revision(db, now)
                    &&& self.holds(state)
                    &&& #[trigger] self.plans_change(db, state, revision, now, plan)
                    &&& self.answers_change(db, revision, now, plan, r)
                },
    {
        let revision_now = db.current_revision();
        assert(reports_revision(db, revision_now));

        let plan = {
            let guard = lock_shared(&self.state);
            let state = shared_state(&guard);
            assert(self.holds(*state));
            self.plan_change(db, state, revision, revision_now)
        };
        let ghost planned = plan;
        let inputs = match plan {
            ChangePlan::BlockedOn(receiver) => {
                let stamped = self.block_on(db, receiver);
                let r = Ok(stamped.changed_at.is_after(revision));
                assert(self.answers_change(db, revision, revision_now, planned, r));
                return r;
            },
            ChangePlan::Probe(ChangeProbe::Known(changed)) => {
                assert(self.answers_change(db, revision, revision_now, planned, Ok(changed)));
                return Ok(changed);
            },
            // The value may be out of date, and there is a value: a read
            // walks the inputs, and more. The first look of a read can be
            // left out, its outcome is known.
            ChangePlan::Probe(ChangeProbe::Reread) => {
                let read = self.read_upgrade(db, revision_now);
                assert(self.upgrades(db, revision_now, read));
                let r = match read {
                    Ok(stamped) => Ok(stamped.changed_at.is_after(revision)),
                    Err(ReadError::Cycle) => Ok(true),
                    Err(error) => Err(error),
                };
                assert(self.answers_change(db, revision, revision_now, planned, r));
                return r;
            },
            ChangePlan::Probe(ChangeProbe::Unchanged) => None,
            ChangePlan::Probe(ChangeProbe::Walk(inputs)) => Some(inputs),
        };

        let maybe_changed = match &inputs {
            Some(inputs) => {
                let first = first_changed_input(db, inputs, revision);
                assert(walks(db, inputs@, revision, first));
                first.is_some()
            },
            None => false,
        };

        // The lock was only held for reading, and not all the time: much
        // may have happened to the slot meanwhile. The step that records
        // the outcome leaves alone what it does not find as it was.
        let states = self.settle(revision_now, maybe_changed);
        assert(self.settles(revision_now, maybe_changed, states@.0, states@.1));
        assert(self.answers_change(db, revision, revision_now, planned, Ok(maybe_changed)));
        Ok(maybe_changed)
    }
}

/// Stands for the marker that a runtime has put into a slot. However the
/// runtime leaves the computation, the marker goes with it: the guard is
/// either used up by `proceed` or `cancel`, or it is dropped while the
/// runtime unwinds and then takes the marker away.
#[verifier::reject_recursive_types(DB)]
#[verifier::reject_recursive_types(Q)]
#[verifier::reject_recursive_types(MP)]
struct PanicGuard<
    'me,
    DB: Database,
    Q: QueryFunction<DB>,
    MP: MemoizationPolicy<Q::Key, Q::Value>,
> {
    database_key: DatabaseKey,
    slot: &'me Slot<DB, Q, MP>,
    memo: Option<Memo<Q::Value>>,
    db: &'me DB,
    runtime_id: RuntimeId,
    armed: bool,
}

impl<'me, DB: Database, Q: QueryFunction<DB>, MP: MemoizationPolicy<Q::Key, Q::Value>> PanicGuard<
    'me,
    DB,
    Q,
    MP,
> {
    /// The two guards stand for the same marker: that of one runtime in
    /// one slot.
    spec fn same_marker(self, other: Self) -> bool {
        &&& self.database_key == other.database_key
        &&& self.slot == other.slot
        &&& self.db == other.db
        &&& self.runtime_id == other.runtime_id
    }

    /// The memo that goes into the slot: that of the guard if there is a
    /// value to hand out, and none if the computation is given up.
    spec fn memo_installed(self, with_value: bool) -> Option<Memo<Q::Value>> {
        if with_value {
            self.memo
        } else {
            None
        }
    }

    /// The memo that stays with the guard.
    spec fn memo_kept(self, with_value: bool) -> Option<Memo<Q::Value>> {
        if with_value {
            None
        } else {
            self.memo
        }
    }

    /// What comes of the guard overwriting its marker, where `before` is
    /// the state that the slot lent for writing and `after` the state that
    /// it got back: see [`Slot::gives_up_marker`].
    spec fn overwrites(
        self,
        before: QueryState<Q::Value>,
        after: QueryState<Q::Value>,
        new_value: Option<&StampedValue<Q::Value>>,
        r: Result<(), PlaceholderLost>,
    ) -> bool {
        Slot::<DB, Q, MP>::gives_up_marker(
            self.db,
            self.runtime_id,
            self.database_key,
            self.memo,
            match new_value {
                Some(value) => Some(*value),
                None => None,
            },
            before,
            after,
            r,
        )
    }

    fn new(
        database_key: DatabaseKey,
        slot: &'me Slot<DB, Q, MP>,
        memo: Option<Memo<Q::Value>>,
        db: &'me DB,
        runtime_id: RuntimeId,
    ) -> (guard: Self)
        ensures
            guard == (PanicGuard { database_key, slot, memo, db, runtime_id, armed: true }),
    {
        PanicGuard { database_key, slot, memo, db, runtime_id, armed: true }
    }

    /// Puts the memo of the guard into the slot, in the place of the
    /// marker, and hands `new_value` to the runtimes that waited.
    fn proceed(self, new_value: &StampedValue<Q::Value>) -> (r: Result<(), PlaceholderLost>)
        ensures
            exists|borrowed: &mut ExclusiveGuard<Q::Value>, lent: &mut QueryState<Q::Value>|
                {
                    &&& call_ensures(lock_exclusive::<Q::Value>, (&self.slot.state,), *borrowed)
                    &&& #[trigger] call_ensures(exclusive_state::<Q::Value>, (borrowed,), lent)
                    &&& self.overwrites(*lent, *final(lent), Some(new_value), r)
                },
    {
        let mut guard = self;
        let done = guard.overwrite_placeholder(Some(new_value));
        guard.armed = false;
        done
    }

    /// Takes the marker out of the slot and leaves the slot empty. The
    /// runtimes that waited learn that no value will come.
    fn cancel(self) -> (r: Result<(), PlaceholderLost>)
        ensures
            exists|borrowed: &mut ExclusiveGuard<Q::Value>, lent: &mut QueryState<Q::Value>|
                {
                    &&& call_ensures(lock_exclusive::<Q::Value>, (&self.slot.state,), *borrowed)
                    &&& #[trigger] call_ensures(exclusive_state::<Q::Value>, (borrowed,), lent)
                    &&& self.overwrites(*lent, *final(lent), None, r)
                },
    {
        let mut guard = self;
        let done = guard.overwrite_placeholder(None);
        guard.armed = false;
        done
    }

    /// Overwrites the marker that this runtime had put into the slot: by
    /// the memo of the guard if there is a value to hand out, and by
    /// nothing if there is none. Whoever waited is told.
    fn overwrite_placeholder(&mut self, new_value: Option<&StampedValue<Q::Value>>) -> (r: Result<
        (),
        PlaceholderLost,
    >)
        ensures
            final(self).same_marker(*old(self)),
            final(self).armed == old(self).armed,
            final(self).memo == old(self).memo_kept(new_value is Some),
            exists|borrowed: &mut ExclusiveGuard<Q::Value>, lent: &mut QueryState<Q::Value>|
                {
                    &&& call_ensures(
                        lock_exclusive::<Q::Value>,
                        (&old(self).slot.state,),
                        *borrowed,
                    )
                    &&& #[trigger] call_ensures(exclusive_state::<Q::Value>, (borrowed,), lent)
                    &&& old(self).overwrites(*lent, *final(lent), new_value, r)
                },
    {
        let memo = match new_value {
            Some(_) => self.memo.take(),
            None => None,
        };
        let mut guard = lock_exclusive(&self.slot.state);
        let state = exclusive_state(&mut guard);
        match state.overwrite_placeholder(self.runtime_id, memo) {
            Ok(waiting) => {
                self.db.unblock_queries_blocked_on_self(&self.database_key);
                match new_value {
                    // Whoever has put itself on the waiting list is told
                    // that the value is there.
                    Some(new_value) => {
                        let _taken = notify_waiters(waiting, new_value);
                    },
                    // There is no value to send. The senders are dropped,
                    // so that those who wait on the receiving halves see
                    // that the computation was given up.
                    None => {
                        abandon_waiters(waiting);
                    },
                }
                Ok(())
            },
            Err(lost) => Err(lost),
        }
    }

    /// Takes the marker out of the slot while the runtime unwinds: a slot
    /// that holds the marker of the runtime is left empty, and those who
    /// waited learn that no value will come.
    fn abandon(&mut self)
        ensures
            *final(self) == *old(self),
            exists|borrowed: &mut ExclusiveGuard<Q::Value>, lent: &mut QueryState<Q::Value>|
                {
                    &&& call_ensures(
                        lock_exclusive::<Q::Value>,
                        (&old(self).slot.state,),
                        *borrowed,
                    )
                    &&& #[trigger] call_ensures(exclusive_state::<Q::Value>, (borrowed,), lent)
                    &&& *final(lent) == (*lent).placeholder_overwritten(old(self).runtime_id, None)
                },
        opens_invariants none
        no_unwind
    {
        let mut guard = lock_exclusive(&self.slot.state);
        let state = exclusive_state(&mut guard);
        match state.overwrite_placeholder(self.runtime_id, None) {
            Ok(waiting) => {
                abandon_waiters(waiting);
            },
            Err(_) => {},
        }
    }
}

impl<'me, DB: Database, Q: QueryFunction<DB>, MP: MemoizationPolicy<Q::Key, Q::Value>> Drop for PanicGuard<
    'me,
    DB,
    Q,
    MP,
> {
    fn drop(&mut self)
        opens_invariants none
        no_unwind
    {
        if self.armed {
            // The runtime left the computation without a word: it unwinds.
            self.abandon();
        }
    }
}

/// Holds for the types that can be sent to, and shared with, another
/// thread.
pub fn is_send_sync<T: Send + Sync>() {
}

/// Holds for the types that borrow nothing.
pub fn is_static<T: 'static>() {
}

/// A slot can be sent to and shared with other threads if its parts can:
/// the runtimes of a database read its slots from many threads.
pub fn check_send_sync<DB, Q, MP>() where
    DB: Database + Send + Sync,
    Q: QueryFunction<DB>,
    MP: MemoizationPolicy<Q::Key, Q::Value> + Send + Sync,
    Q::Key: Send + Sync,
    Q::Value: Send + Sync,
 {
    is_send_sync::<Slot<DB, Q, MP>>();
}

/// A slot borrows nothing if its parts borrow nothing.
pub fn check_static<DB, Q, MP>() where
    DB: Database + 'static,
    Q: QueryFunction<DB> + 'static,
    MP: MemoizationPolicy<Q::Key, Q::Value> + 'static,
    Q::Key: 'static,
    Q::Value: 'static,
 {
    is_static::<Slot<DB, Q, MP>>();
}

} // verus!
