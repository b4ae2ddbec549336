use crate::dependency::DatabaseKey;
use crate::durability::Durability;
use crate::revision::Revision;
use vstd::prelude::*;

verus! {

/// Names one runtime: one thread of execution that reads queries.
#[derive(Clone, Copy, Debug, PartialEq, Eq, Structural, PartialOrd, Ord, Hash)]
pub struct RuntimeId {
    pub counter: usize,
}

/// A value together with the durability of what it was computed from and
/// the revision in which it last changed.
#[derive(Clone, Debug)]
pub struct StampedValue<V> {
    pub value: V,
    pub durability: Durability,
    pub changed_at: Revision,
}

impl<V: Clone> StampedValue<V> {
    /// `copy` carries a copy of the value of `self`, and the stamps of
    /// `self`.
    pub open spec fn copied_to(self, copy: StampedValue<V>) -> bool {
        &&& cloned(self.value, copy.value)
        &&& copy.durability == self.durability
        &&& copy.changed_at == self.changed_at
    }

    /// A copy of the value with the same stamps.
    pub fn copy(&self) -> (copy: StampedValue<V>)
        ensures
            self.copied_to(copy),
    {
        StampedValue {
            value: self.value.clone(),
            durability: self.durability,
            changed_at: self.changed_at,
        }
    }
}

/// The error of a read that would have to wait for itself.
#[derive(Clone, Copy, Debug, PartialEq, Eq, Structural)]
pub struct CycleDetected;

/// What a slot tells the database about, for tests and tracing.
#[derive(Clone, Copy, Debug, PartialEq, Eq, Structural)]
pub enum EventKind {
    /// An old value was found to be still good, without running the query.
    DidValidateMemoizedValue { database_key: DatabaseKey },
    /// This runtime is about to wait for another one to finish the query.
    WillBlockOn { other_runtime_id: RuntimeId, database_key: DatabaseKey },
}

#[derive(Clone, Copy, Debug, PartialEq, Eq, Structural)]
pub struct Event {
    pub runtime_id: RuntimeId,
    pub kind: EventKind,
}

/// What a slot needs from the database and its runtime.
///
/// Nothing is assumed of an implementation: the contracts of the slot say
/// what holds for whatever these methods return.
pub trait Database: Sized {
    /// The revision the database is in. It must not move while a query is
    /// being read.
    fn current_revision(&self) -> Revision;

    /// The last revision in which an input was written that a value of this
    /// durability may have been computed from.
    fn last_changed_revision(&self, durability: Durability) -> Revision;

    /// The runtime on whose behalf this handle reads.
    fn id(&self) -> RuntimeId;

    /// Notes in the wait-for graph that this runtime waits for `other_id` to
    /// finish `database_key`. Returns false, and notes nothing, if that wait
    /// would close a cycle.
    fn try_block_on(&self, database_key: &DatabaseKey, other_id: RuntimeId) -> bool;

    /// Removes from the wait-for graph every wait for this runtime to finish
    /// `database_key`.
    fn unblock_queries_blocked_on_self(&self, database_key: &DatabaseKey);

    /// Asks the slot of `input` whether its value may have changed after
    /// `revision`.
    fn maybe_changed_since(&self, input: &DatabaseKey, revision: Revision) -> bool;

    /// Takes note that the query known as `database_key` is about to run:
    /// from now on, what this runtime reads counts as an input of that
    /// query.
    fn begin_query(&self, database_key: &DatabaseKey);

    /// Takes note that the query known as `database_key` has returned
    /// `value`, and hands the value back with the durability, the stamp and
    /// the inputs that were recorded since `begin_query`. It is not called
    /// if the query function unwinds.
    fn end_query<V>(&self, database_key: &DatabaseKey, value: V) -> ComputedQueryResult<V>;

    /// Called by a runtime that waited for a value whose computation was
    /// abandoned. It stands in for the value that never came, so an
    /// implementation has nothing to return and is expected to unwind.
    fn on_propagated_panic<T>(&self) -> T;

    /// Takes note of an event.
    fn salsa_event(&self, event: Event);
}

/// What one execution of a query function came to.
pub struct ComputedQueryResult<V> {
    pub value: V,
    /// The least durability among the inputs that were read.
    pub durability: Durability,
    /// The latest revision in which one of the inputs changed.
    pub changed_at: Revision,
    /// The inputs that were read, or `None` if one of the reads could not be
    /// tracked.
    pub dependencies: Option<crate::dependency::DependencySet>,
}

/// `revision` is an answer of `db` to the question when an input was last
/// written that a value of durability `durability` may depend on.
pub open spec fn reports_last_changed<DB: Database>(
    db: &DB,
    durability: Durability,
    revision: Revision,
) -> bool {
    call_ensures(DB::last_changed_revision, (db, durability), revision)
}

/// `id` is an answer of `db` to the question which runtime it reads for.
pub open spec fn reports_id<DB: Database>(db: &DB, id: RuntimeId) -> bool {
    call_ensures(DB::id, (db,), id)
}

/// `allowed` is an answer of `db` to the question whether its runtime may
/// wait for `other_id` to finish `database_key`.
pub open spec fn reports_may_block<DB: Database>(
    db: &DB,
    database_key: DatabaseKey,
    other_id: RuntimeId,
    allowed: bool,
) -> bool {
    call_ensures(DB::try_block_on, (db, &database_key, other_id), allowed)
}

/// `revision` is an answer of `db` to the question which revision it is in.
pub open spec fn reports_revision<DB: Database>(db: &DB, revision: Revision) -> bool {
    call_ensures(DB::current_revision, (db,), revision)
}

/// `db` took note that the query known as `database_key` is about to run.
pub open spec fn reports_begun<DB: Database>(db: &DB, database_key: DatabaseKey) -> bool {
    call_ensures(DB::begin_query, (db, &database_key), ())
}

/// `computed` is what `db` made of the query known as `database_key`
/// having returned `value`.
pub open spec fn reports_ended<DB: Database, V>(
    db: &DB,
    database_key: DatabaseKey,
    value: V,
    computed: ComputedQueryResult<V>,
) -> bool {
    call_ensures(DB::end_query::<V>, (db, &database_key, value), computed)
}

/// `db` took note of `event`.
pub open spec fn reports_event<DB: Database>(db: &DB, event: Event) -> bool {
    call_ensures(DB::salsa_event, (db, event), ())
}

/// `db` has removed the waits for its runtime to finish `database_key`.
pub open spec fn reports_unblocked<DB: Database>(db: &DB, database_key: DatabaseKey) -> bool {
    call_ensures(DB::unblock_queries_blocked_on_self, (db, &database_key), ())
}

/// `value` is what `db` gives in the place of a value that never came.
pub open spec fn reports_propagated_panic<DB: Database, T>(db: &DB, value: T) -> bool {
    call_ensures(DB::on_propagated_panic::<T>, (db,), value)
}

/// `changed` is an answer of `db` to the question whether `input` may have
/// changed after `since`.
pub open spec fn reports_change<DB: Database>(
    db: &DB,
    input: DatabaseKey,
    since: Revision,
    changed: bool,
) -> bool {
    call_ensures(DB::maybe_changed_since, (db, &input, since), changed)
}

/// Every one of the first `n` inputs was asked and answered "unchanged".
pub open spec fn reports_unchanged_prefix<DB: Database>(
    db: &DB,
    inputs: Seq<DatabaseKey>,
    since: Revision,
    n: int,
) -> bool {
    forall|j: int| 0 <= j < n ==> reports_change(db, #[trigger] inputs[j], since, false)
}

/// Input number `i` is the first to answer "may have changed": those before
/// it answered "unchanged", and those after it were not asked.
pub open spec fn reports_first_change_at<DB: Database>(
    db: &DB,
    inputs: Seq<DatabaseKey>,
    since: Revision,
    i: int,
) -> bool {
    &&& 0 <= i < inputs.len()
    &&& reports_change(db, inputs[i], since, true)
    &&& reports_unchanged_prefix(db, inputs, since, i)
}

} // verus!
