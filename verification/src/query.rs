use crate::dependency::DatabaseKey;
use crate::runtime::{CycleDetected, Database};
use vstd::prelude::*;

verus! {

/// A query: a function from a key to a value that reads the database and
/// nothing else.
///
/// Nothing is assumed of an implementation.
pub trait QueryFunction<DB: Database> {
    type Key: Clone;

    type Value: Clone;

    /// The name of `key` under this query in `db`.
    fn database_key(db: &DB, key: &Self::Key) -> DatabaseKey;

    /// Computes the value for `key`. A read of another query that finds a
    /// cycle is handed on as the error.
    fn execute(db: &DB, key: &Self::Key) -> Result<Self::Value, CycleDetected>;
}

/// What a slot keeps of a value, and when it takes a new value for the old
/// one.
///
/// Nothing is assumed of an implementation.
pub trait MemoizationPolicy<K, V> {
    /// Whether the slot keeps a copy of the value for `key`.
    fn should_memoize_value(key: &K) -> bool;

    /// Whether a recomputed value is to count as the same as the old one.
    fn memoized_value_eq(old_value: &V, new_value: &V) -> bool;
}

/// `equal` is an answer of the policy to the question whether `new_value`
/// counts as the same as `old_value`.
pub open spec fn reports_equal<K, V, MP: MemoizationPolicy<K, V>>(
    old_value: V,
    new_value: V,
    equal: bool,
) -> bool {
    call_ensures(MP::memoized_value_eq, (&old_value, &new_value), equal)
}

/// `keep` is an answer of the policy to the question whether the value for
/// `key` is kept.
pub open spec fn reports_memoize<K, V, MP: MemoizationPolicy<K, V>>(key: K, keep: bool) -> bool {
    call_ensures(MP::should_memoize_value, (&key,), keep)
}

/// `database_key` is an answer of the query to the question under which
/// name `db` knows `key`.
pub open spec fn reports_database_key<DB: Database, Q: QueryFunction<DB>>(
    db: &DB,
    key: Q::Key,
    database_key: DatabaseKey,
) -> bool {
    call_ensures(Q::database_key, (db, &key), database_key)
}

/// `value` is what the query function returned for `key` in `db`.
pub open spec fn reports_executed<DB: Database, Q: QueryFunction<DB>>(
    db: &DB,
    key: Q::Key,
    value: Result<Q::Value, CycleDetected>,
) -> bool {
    call_ensures(Q::execute, (db, &key), value)
}

/// The policy of a query whose values are kept, and compared by `==`.
pub struct AlwaysMemoizeValue<K, V> {
    key: std::marker::PhantomData<K>,
    value: std::marker::PhantomData<V>,
}

/// The policy of a query whose values are never kept: each stale read runs
/// the query again, and no recomputed value counts as the old one.
pub struct NeverMemoizeValue;

impl<K, V: PartialEq> MemoizationPolicy<K, V> for AlwaysMemoizeValue<K, V> {
    fn should_memoize_value(key: &K) -> bool
        returns
            true,
    {
        true
    }

    fn memoized_value_eq(old_value: &V, new_value: &V) -> (equal: bool)
        ensures
            call_ensures(V::eq, (old_value, new_value), equal),
    {
        old_value.eq(new_value)
    }
}

impl<K, V> MemoizationPolicy<K, V> for NeverMemoizeValue {
    fn should_memoize_value(key: &K) -> bool
        returns
            false,
    {
        false
    }

    fn memoized_value_eq(old_value: &V, new_value: &V) -> bool
        returns
            false,
    {
        false
    }
}

} // verus!
