//! The lock that keeps the state of a slot.
//!
//! Nothing is proved of what a lock guards: a runtime that takes the lock
//! finds whatever the last one left. The items marked as trusted here only
//! make the calls, and claim nothing of their results. What a function of
//! the slot does is stated of the state that the lock lent to it, see
//! [`lends`] and [`lends_for_writing`]; what is done to a state is stated
//! in [`crate::state`].

use crate::state::QueryState;
use parking_lot::RwLock;
use vstd::prelude::*;

verus! {

/// The reader/writer lock of `lock_api`, which `parking_lot::RwLock` is an
/// alias of. Opaque: nothing is said of what it guards.
#[verifier::external_type_specification]
#[verifier::external_body]
#[verifier::reject_recursive_types(R)]
#[verifier::reject_recursive_types(T)]
pub struct ExRwLock<R, T: ?Sized>(parking_lot::lock_api::RwLock<R, T>);

/// The raw lock of `parking_lot`, the first parameter of its `RwLock`.
#[verifier::external_type_specification]
#[verifier::external_body]
pub struct ExRawRwLock(parking_lot::RawRwLock);

/// A `parking_lot::RwLockReadGuard` on the state of a slot: the state is
/// locked for reading for as long as the guard lives. Opaque.
#[verifier::external_body]
#[verifier::reject_recursive_types(V)]
pub(crate) struct SharedGuard<'a, V> {
    guard: parking_lot::RwLockReadGuard<'a, QueryState<V>>,
}

/// A `parking_lot::RwLockWriteGuard` on the state of a slot: the state is
/// locked for writing for as long as the guard lives. Opaque.
#[verifier::external_body]
#[verifier::reject_recursive_types(V)]
pub(crate) struct ExclusiveGuard<'a, V> {
    guard: parking_lot::RwLockWriteGuard<'a, QueryState<V>>,
}

/// The cell that keeps the state of a slot.
pub type StateCell<V> = RwLock<QueryState<V>>;

/// Calls `RwLock::new` of `lock_api`, which puts the state behind a new
/// lock. Nothing is claimed of the result.
#[verifier::external_body]
pub(crate) fn new_state_cell<V>(state: QueryState<V>) -> (cell: StateCell<V>) {
    RwLock::new(state)
}

/// Calls `RwLock::read` of `lock_api`, which blocks until no writer holds
/// the lock and returns a guard for reading. Nothing is claimed of what is
/// guarded.
#[verifier::external_body]
pub(crate) fn lock_shared<'a, V>(cell: &'a StateCell<V>) -> (guard: SharedGuard<'a, V>) {
    SharedGuard { guard: cell.read() }
}

/// Calls `RwLock::write` of `lock_api`, which blocks until nobody else
/// holds the lock and returns a guard for writing. It does not unwind.
/// Nothing is claimed of what is guarded.
#[verifier::external_body]
pub(crate) fn lock_exclusive<'a, V>(cell: &'a StateCell<V>) -> (guard: ExclusiveGuard<'a, V>)
    opens_invariants none
    no_unwind
{
    ExclusiveGuard { guard: cell.write() }
}

/// Calls `Deref::deref` of the read guard, which lends out the guarded
/// state. Nothing is claimed of the state.
#[verifier::external_body]
pub(crate) fn shared_state<'a, 'b, V>(guard: &'b SharedGuard<'a, V>) -> (state: &'b QueryState<V>) {
    &*guard.guard
}

/// Calls `DerefMut::deref_mut` of the write guard, which lends out the
/// guarded state. It does not unwind. Nothing is claimed of the state.
#[verifier::external_body]
pub(crate) fn exclusive_state<'a, 'b, V>(guard: &'b mut ExclusiveGuard<'a, V>) -> (state: &'b mut QueryState<
    V,
>)
    opens_invariants none
    no_unwind
{
    &mut *guard.guard
}

/// `state` is what the cell lent out to a runtime that took the lock for
/// reading.
pub open(crate) spec fn lends<V>(cell: &StateCell<V>, state: QueryState<V>) -> bool {
    exists|guard: SharedGuard<V>|
        call_ensures(lock_shared::<V>, (cell,), guard) && #[trigger] call_ensures(
            shared_state::<V>,
            (&guard,),
            &state,
        )
}

/// `state` is what the cell lent out to a runtime that took the lock for
/// writing, as the runtime found it.
pub open(crate) spec fn lends_for_writing<V>(cell: &StateCell<V>, state: QueryState<V>) -> bool {
    exists|borrowed: &mut ExclusiveGuard<V>, lent: &mut QueryState<V>|
        call_ensures(lock_exclusive::<V>, (cell,), *borrowed) && #[trigger] call_ensures(
            exclusive_state::<V>,
            (borrowed,),
            lent,
        ) && *lent == state
}

} // verus!
