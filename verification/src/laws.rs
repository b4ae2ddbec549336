//! What holds of the steps of a slot, whatever the order in which runtimes
//! take them.

use crate::dependency::DatabaseKey;
use crate::durability::Durability;
use crate::memo::Memo;
use crate::query::{reports_database_key, reports_equal, MemoizationPolicy, QueryFunction};
use crate::revision::Revision;
use crate::runtime::{
    reports_id, reports_may_block, ComputedQueryResult, CycleDetected, Database, RuntimeId,
    StampedValue,
};
use crate::slot::{ProbeState, ReadError};
use crate::slot::Slot;
use crate::state::QueryState;
use crate::sweep::{DiscardWhat, SweepStrategy};
use vstd::prelude::*;

verus! {

/// Within one revision every reader gets the same: two values handed out
/// for a state that is up to date are copies of the one value that the
/// state keeps, and they carry the same stamps.
pub proof fn lemma_readers_agree<V: Clone>(
    state: QueryState<V>,
    now: Revision,
    first: StampedValue<V>,
    second: StampedValue<V>,
)
    requires
        state.is_up_to_date(now),
        state->Memoized_0.stamps(first),
        state->Memoized_0.stamps(second),
    ensures
        first.changed_at == second.changed_at,
        first.durability == second.durability,
        cloned(state->Memoized_0.value->0, first.value),
        cloned(state->Memoized_0.value->0, second.value),
{
}

/// Two reads that find the same state up to date in the same revision,
/// by whatever runtimes, both come to a value: the values are copies of
/// the one that the state keeps, and they carry the same stamps.
pub proof fn lemma_reads_of_one_state_agree<
    DB: Database,
    Q: QueryFunction<DB>,
    MP: MemoizationPolicy<Q::Key, Q::Value>,
>(
    slot: Slot<DB, Q, MP>,
    first_db: &DB,
    second_db: &DB,
    state: QueryState<Q::Value>,
    now: Revision,
    first_probed: ProbeState<Q::Value>,
    second_probed: ProbeState<Q::Value>,
    first: Result<StampedValue<Q::Value>, ReadError>,
    second: Result<StampedValue<Q::Value>, ReadError>,
)
    requires
        state.is_up_to_date(now),
        slot.probes(first_db, state, now, first_probed),
        slot.reads(first_db, now, first_probed, first),
        slot.probes(second_db, state, now, second_probed),
        slot.reads(second_db, now, second_probed, second),
    ensures
        first matches Ok(a) && second matches Ok(b) && a.changed_at == b.changed_at
            && a.durability == b.durability && cloned(state->Memoized_0.value->0, a.value)
            && cloned(state->Memoized_0.value->0, b.value),
{
}

/// A validation never takes the memo back in time, and touches nothing
/// else: the memo is verified in the revision it was, or in `now`; its
/// value, stamp, durability and inputs stay; and a value that is handed
/// out carries the stamp of the memo.
pub proof fn lemma_validation_keeps_the_memo<V: Clone>(
    before: Memo<V>,
    after: Memo<V>,
    now: Revision,
    r: Option<StampedValue<V>>,
)
    requires
        before.validates_to(after, now, r),
    ensures
        after.verified_at == before.verified_at || after.verified_at == now,
        before.verified_at@ <= now@ ==> before.verified_at@ <= after.verified_at@,
        before.valid_at(now) ==> after.valid_at(now),
        after.value == before.value,
        after.changed_at == before.changed_at,
        after.durability == before.durability,
        after.inputs == before.inputs,
        r matches Some(stamped) ==> stamped.changed_at == after.changed_at && stamped.durability
            == after.durability && after.verified_at == now,
{
}

/// What a run of the query function comes to is decided by the run: a
/// cycle that the function reports comes back as a cycle, and only that;
/// a revision that moved comes back as that error, and only if the
/// function came to a value; with a value and an unmoved revision the run
/// succeeds.
pub proof fn lemma_conclusion_follows_the_run<
    DB: Database,
    Q: QueryFunction<DB>,
    MP: MemoizationPolicy<Q::Key, Q::Value>,
>(
    slot: Slot<DB, Q, MP>,
    old_memo: Option<Memo<Q::Value>>,
    computed: ComputedQueryResult<Result<Q::Value, CycleDetected>>,
    revision_after: Revision,
    now: Revision,
    r: Result<(Memo<Q::Value>, StampedValue<Q::Value>), ReadError>,
)
    requires
        slot.concludes(old_memo, computed, revision_after, now, r),
    ensures
        r matches Err(ReadError::Cycle) <==> computed.value is Err,
        r matches Err(ReadError::RevisionAltered) <==> computed.value is Ok && revision_after != now,
        r is Ok <==> computed.value is Ok && revision_after == now,
        !(r matches Err(ReadError::PlaceholderLost)),
{
}

/// A run that succeeds leaves a memo and hands out a value that are those
/// of the run: the value that the query function returned, the durability
/// and the inputs that the database recorded, verified in the revision of
/// the run. The memo and the value handed out carry the same stamp, and a
/// value that the memo keeps is a copy of the one handed out.
pub proof fn lemma_conclusion_records_the_run<
    DB: Database,
    Q: QueryFunction<DB>,
    MP: MemoizationPolicy<Q::Key, Q::Value>,
>(
    slot: Slot<DB, Q, MP>,
    old_memo: Option<Memo<Q::Value>>,
    computed: ComputedQueryResult<Result<Q::Value, CycleDetected>>,
    revision_after: Revision,
    now: Revision,
    memo: Memo<Q::Value>,
    stamped: StampedValue<Q::Value>,
)
    requires
        slot.concludes(old_memo, computed, revision_after, now, Ok((memo, stamped))),
    ensures
        computed.value == Ok::<Q::Value, CycleDetected>(stamped.value),
        stamped.durability == computed.durability,
        memo.durability == computed.durability,
        memo.verified_at == now,
        memo.changed_at == stamped.changed_at,
        memo.inputs.captures(computed.dependencies),
        memo.inputs is Untracked <==> computed.dependencies is None,
        memo.value matches Some(kept) ==> cloned(stamped.value, kept),
        QueryState::Memoized(memo).valid_at(now) <==> memo.changed_at@ <= now@,
{
}

/// Backdating, as a read does it: if the old memo holds a value, the run
/// came to a value that is no less durable, and the policy can only answer
/// that the two count as equal, then the new memo and the value handed out
/// carry the stamp of the old value.
pub proof fn lemma_conclusion_backdates<
    DB: Database,
    Q: QueryFunction<DB>,
    MP: MemoizationPolicy<Q::Key, Q::Value>,
>(
    slot: Slot<DB, Q, MP>,
    old: Memo<Q::Value>,
    computed: ComputedQueryResult<Result<Q::Value, CycleDetected>>,
    revision_after: Revision,
    now: Revision,
    memo: Memo<Q::Value>,
    stamped: StampedValue<Q::Value>,
)
    requires
        slot.concludes(Some(old), computed, revision_after, now, Ok((memo, stamped))),
        old.value is Some,
        computed.durability.level() >= old.durability.level(),
        forall|equal: bool| #[trigger]
            reports_equal::<Q::Key, Q::Value, MP>(old.value->0, stamped.value, equal) ==> equal,
    ensures
        stamped.changed_at == old.changed_at,
        memo.changed_at == old.changed_at,
{
}

/// No backdating: the new memo and the value handed out carry the stamp
/// that the run came with if there was no old memo, or it held no value,
/// or the new value is less durable than the old one, or the policy can
/// only answer that the two values differ. A loss of durability is never
/// hidden.
pub proof fn lemma_conclusion_keeps_the_stamp_of_the_run<
    DB: Database,
    Q: QueryFunction<DB>,
    MP: MemoizationPolicy<Q::Key, Q::Value>,
>(
    slot: Slot<DB, Q, MP>,
    old_memo: Option<Memo<Q::Value>>,
    computed: ComputedQueryResult<Result<Q::Value, CycleDetected>>,
    revision_after: Revision,
    now: Revision,
    memo: Memo<Q::Value>,
    stamped: StampedValue<Q::Value>,
)
    requires
        slot.concludes(old_memo, computed, revision_after, now, Ok((memo, stamped))),
        old_memo matches Some(old) ==> {
            ||| old.value is None
            ||| computed.durability.level() < old.durability.level()
            ||| forall|equal: bool| #[trigger]
                reports_equal::<Q::Key, Q::Value, MP>(old.value->0, stamped.value, equal)
                    ==> !equal
        },
    ensures
        stamped.changed_at == computed.changed_at,
        memo.changed_at == computed.changed_at,
{
}

/// The memo of a run is valid in the revision of the run: its value did
/// not change after it was verified, and tracked inputs are not empty.
/// This needs the stamp of the run to be no later than that revision, and
/// the old memo, if there was one, to be valid.
pub proof fn lemma_conclusion_is_valid<
    DB: Database,
    Q: QueryFunction<DB>,
    MP: MemoizationPolicy<Q::Key, Q::Value>,
>(
    slot: Slot<DB, Q, MP>,
    old_memo: Option<Memo<Q::Value>>,
    computed: ComputedQueryResult<Result<Q::Value, CycleDetected>>,
    revision_after: Revision,
    now: Revision,
    memo: Memo<Q::Value>,
    stamped: StampedValue<Q::Value>,
)
    requires
        slot.concludes(old_memo, computed, revision_after, now, Ok((memo, stamped))),
        computed.changed_at@ <= now@,
        old_memo matches Some(old) ==> old.valid_at(now),
    ensures
        memo.valid_at(now),
        memo.changed_at@ <= memo.verified_at@,
        memo.verified_at == now,
        stamped.changed_at == memo.changed_at,
        stamped.durability == memo.durability,
{
}

/// What a refresh that comes to a value leaves is what it returns: the
/// memo is verified in the current revision and carries the stamps of the
/// value that was returned, and a value that the memo keeps is a copy of
/// the one returned, or the one of which the returned value is a copy. So
/// whoever reads the slot later in that revision gets the same stamps.
pub proof fn lemma_refresh_leaves_what_it_returns<
    DB: Database,
    Q: QueryFunction<DB>,
    MP: MemoizationPolicy<Q::Key, Q::Value>,
>(
    slot: Slot<DB, Q, MP>,
    db: &DB,
    database_key: DatabaseKey,
    old_memo: Option<Memo<Q::Value>>,
    new: Memo<Q::Value>,
    stamped: StampedValue<Q::Value>,
    now: Revision,
    later: StampedValue<Q::Value>,
)
    requires
        slot.refreshes(db, database_key, old_memo, Some(new), now, Ok(stamped)),
        new.stamps(later),
    ensures
        new.is_current(now),
        QueryState::Memoized(new).is_up_to_date(now),
        later.changed_at == stamped.changed_at,
        later.durability == stamped.durability,
        cloned(stamped.value, new.value->0) || cloned(new.value->0, stamped.value),
{
}

/// A refresh leaves a memo that was verified no earlier than the one it
/// found, if that one was not from a later revision than `now`.
pub proof fn lemma_refresh_keeps_verified_at<
    DB: Database,
    Q: QueryFunction<DB>,
    MP: MemoizationPolicy<Q::Key, Q::Value>,
>(
    slot: Slot<DB, Q, MP>,
    db: &DB,
    database_key: DatabaseKey,
    old: Memo<Q::Value>,
    new_memo: Option<Memo<Q::Value>>,
    r: Result<StampedValue<Q::Value>, ReadError>,
    now: Revision,
)
    requires
        slot.refreshes(db, database_key, Some(old), new_memo, now, r),
        old.valid_at(now),
    ensures
        new_memo matches Some(new) && old.verified_at@ <= new.verified_at@,
        r is Err ==> new_memo == Some(old),
{
}

/// A refresh runs the query function where validation does not succeed,
/// and then its result is that of the run: the query function was called
/// for the key of the slot, and what the database made of its result
/// decides. A value from the run is the value returned, a cycle from the
/// run is the cycle returned.
pub proof fn lemma_refresh_follows_the_run<
    DB: Database,
    Q: QueryFunction<DB>,
    MP: MemoizationPolicy<Q::Key, Q::Value>,
>(
    slot: Slot<DB, Q, MP>,
    db: &DB,
    database_key: DatabaseKey,
    old_memo: Option<Memo<Q::Value>>,
    new_memo: Option<Memo<Q::Value>>,
    r: Result<StampedValue<Q::Value>, ReadError>,
    now: Revision,
)
    requires
        slot.refreshes(db, database_key, old_memo, new_memo, now, r),
        old_memo matches Some(old) ==> !old.validation_outcome(db, true),
    ensures
        exists|
            computed: ComputedQueryResult<Result<Q::Value, CycleDetected>>,
            revision_after: Revision,
        |
            {
                &&& #[trigger] slot.runs(db, database_key, computed, revision_after)
                &&& match r {
                    Ok(stamped) => {
                        &&& computed.value == Ok::<Q::Value, CycleDetected>(stamped.value)
                        &&& stamped.durability == computed.durability
                        &&& revision_after == now
                        &&& new_memo matches Some(new)
                        &&& new.verified_at == now
                        &&& new.inputs.captures(computed.dependencies)
                    },
                    Err(ReadError::Cycle) => computed.value is Err && new_memo == old_memo,
                    Err(ReadError::RevisionAltered) => computed.value is Ok && revision_after
                        != now && new_memo == old_memo,
                    Err(ReadError::PlaceholderLost) => false,
                }
            },
{
    let (computed, revision_after, concluded) = choose|
        computed: ComputedQueryResult<Result<Q::Value, CycleDetected>>,
        revision_after: Revision,
        concluded: Result<(Memo<Q::Value>, StampedValue<Q::Value>), ReadError>,
    |
        {
            &&& #[trigger] slot.ran_query(db, database_key, computed, revision_after)
            &&& #[trigger] slot.concludes(old_memo, computed, revision_after, now, concluded)
            &&& match concluded {
                Ok(pair) => new_memo == Some(pair.0) && r == Ok::<StampedValue<Q::Value>, ReadError>(
                    pair.1,
                ),
                Err(error) => new_memo == old_memo && r == Err::<StampedValue<Q::Value>, ReadError>(
                    error,
                ),
            }
        };
    slot.lemma_ran_query(db, database_key, computed, revision_after);
    assert(slot.runs(db, database_key, computed, revision_after));
}

/// Backdating: a value that was computed again, counts as equal to the old
/// one and is no less durable takes over the stamp of the old value.
/// Otherwise it keeps the stamp that it came with.
pub proof fn lemma_backdating<V>(
    old: Memo<V>,
    durability: Durability,
    changed_at: Revision,
    equal: bool,
)
    ensures
        old.value is Some && equal && durability.level() >= old.durability.level()
            ==> old.backdated(durability, changed_at, equal) == old.changed_at,
        old.value is None || !equal || durability.level() < old.durability.level()
            ==> old.backdated(durability, changed_at, equal) == changed_at,
{
}

/// Backdating, as a slot does it: if the old memo holds a value, the new
/// value is no less durable and the policy can only answer that the two are
/// equal, then the stamp that is handed out is that of the old value.
pub proof fn lemma_slot_backdates<
    DB: Database,
    Q: QueryFunction<DB>,
    MP: MemoizationPolicy<Q::Key, Q::Value>,
>(
    old: Memo<Q::Value>,
    value: Q::Value,
    durability: Durability,
    changed_at: Revision,
    backdated: Revision,
)
    requires
        Slot::<DB, Q, MP>::backdating_outcome(Some(old), value, durability, changed_at, backdated),
        old.value is Some,
        durability.level() >= old.durability.level(),
        forall|equal: bool| #[trigger]
            reports_equal::<Q::Key, Q::Value, MP>(old.value->0, value, equal) ==> equal,
    ensures
        backdated == old.changed_at,
{
}

/// The revision in which a slot was last verified never goes back, unless
/// the memo is discarded. This covers every step that leaves a memo in the
/// place of a memo, in a slot whose memo is not from a later revision than
/// `now`. (A read takes the old memo out and puts a new one in: see
/// `lemma_refresh_keeps_verified_at`.)
pub proof fn lemma_verified_at_never_goes_back<V>(
    state: QueryState<V>,
    now: Revision,
    strategy: SweepStrategy,
    maybe_changed: bool,
    n: nat,
)
    requires
        state.valid_at(now),
    ensures
        verified_at_kept(state, state.evicted()),
        verified_at_kept(state, state.evicted_times(n)),
        verified_at_kept(state, state.swept(now, strategy)),
        verified_at_kept(state, state.settled(now, maybe_changed)),
    decreases n,
{
    if n > 0 {
        lemma_verified_at_never_goes_back(state.evicted(), now, strategy, maybe_changed, (n - 1) as nat);
    }
}

/// If both states hold a memo, the second was verified no earlier than the
/// first.
pub open spec fn verified_at_kept<V>(before: QueryState<V>, after: QueryState<V>) -> bool {
    before matches QueryState::Memoized(a) ==> (after matches QueryState::Memoized(b)
        ==> a.verified_at@ <= b.verified_at@)
}

/// While a runtime computes the value, the slot is its own: no eviction,
/// sweep or settling touches the marker, and no other runtime can take it
/// away. So no second runtime comes to hold the marker.
pub proof fn lemma_single_executor<V>(
    state: QueryState<V>,
    id: RuntimeId,
    other: RuntimeId,
    memo: Option<Memo<V>>,
    now: Revision,
    strategy: SweepStrategy,
    maybe_changed: bool,
)
    requires
        state.owner() == Some(id),
        other != id,
    ensures
        state.evicted() == state,
        state.swept(now, strategy) == state,
        state.settled(now, maybe_changed) == state,
        state.placeholder_overwritten(other, memo) == state,
        !state.is_up_to_date(now),
{
}

/// A runtime that finds its own marker in a slot is told of a cycle, and so
/// is one that the database does not let wait.
pub proof fn lemma_waiting_for_oneself_is_a_cycle<
    DB: Database,
    Q: QueryFunction<DB>,
    MP: MemoizationPolicy<Q::Key, Q::Value>,
>(slot: Slot<DB, Q, MP>, db: &DB, owner: RuntimeId, cycle: bool)
    requires
        slot.wait_outcome(db, owner, cycle),
        (forall|me: RuntimeId| #[trigger] reports_id(db, me) ==> me == owner) || (forall|
            database_key: DatabaseKey,
            allowed: bool,
        | #[trigger] reports_may_block(db, database_key, owner, allowed) ==> !allowed),
    ensures
        cycle,
{
}

/// A value that was computed from untracked inputs survives any number of
/// evictions, and any sweep in the revision in which it was verified.
/// Only a sweep in a later revision discards it.
pub proof fn lemma_volatile_values_are_pinned<V>(
    memo: Memo<V>,
    n: nat,
    now: Revision,
    strategy: SweepStrategy,
)
    requires
        memo.inputs is Untracked,
    ensures
        QueryState::Memoized(memo).evicted_times(n) == QueryState::Memoized(memo),
        memo.is_current(now) ==> QueryState::Memoized(memo).swept(now, strategy)
            == QueryState::Memoized(memo),
        !memo.is_current(now) && strategy.discard_what == DiscardWhat::Values ==> QueryState::Memoized(
            memo,
        ).swept(now, strategy) == QueryState::Memoized(memo.without_value()),
    decreases n,
{
    if n > 0 {
        lemma_volatile_values_are_pinned(memo, (n - 1) as nat, now, strategy);
    }
}

/// A computation that is given up leaves the slot empty: once the runtime
/// that held the marker has taken it away without a memo, no marker is
/// left in the slot.
pub proof fn lemma_abandoned_slot_is_empty<V>(state: QueryState<V>, id: RuntimeId)
    requires
        state.owner() == Some(id),
    ensures
        state.placeholder_overwritten(id, None) == QueryState::<V>::NotComputed,
        !(state.placeholder_overwritten(id, None) is InProgress),
{
}

/// No step makes a memo younger than the revision it is taken in, or lets
/// its value change after it was verified.
pub proof fn lemma_steps_keep_validity<V>(
    state: QueryState<V>,
    now: Revision,
    strategy: SweepStrategy,
    maybe_changed: bool,
)
    requires
        state.valid_at(now),
    ensures
        state.evicted().valid_at(now),
        state.swept(now, strategy).valid_at(now),
        state.settled(now, maybe_changed).valid_at(now),
        state matches QueryState::Memoized(memo) ==> memo.verified_in(now).valid_at(now),
{
}

/// The memo of a finished execution is valid in the revision of the
/// execution, if no input is reported to have changed after it.
pub proof fn lemma_new_memo_is_valid<V: Clone>(
    memo: Memo<V>,
    stamped: StampedValue<V>,
    result: ComputedQueryResult<V>,
    now: Revision,
    keep: bool,
)
    requires
        Memo::records(memo, stamped, result, now, keep),
        result.changed_at@ <= now@,
    ensures
        memo.valid_at(now),
        memo.inputs is Untracked <==> result.dependencies is None,
{
}

/// Backdating reaches those who ask whether a value changed. Take a slot
/// whose memo holds a value that is out of date and cannot be validated,
/// and a second phase of a read that finds this memo in the slot. If every
/// run of the query function comes, in the revision `now`, to a value that
/// the policy can only find equal to the old one and that is no less
/// durable, then the read, unless the marker is lost, hands out the stamp
/// of the old value: held against a revision that is no earlier than that
/// stamp, the value has not changed.
pub proof fn lemma_reread_that_backdates_reports_no_change<
    DB: Database,
    Q: QueryFunction<DB>,
    MP: MemoizationPolicy<Q::Key, Q::Value>,
>(
    slot: Slot<DB, Q, MP>,
    db: &DB,
    me: RuntimeId,
    old: Memo<Q::Value>,
    after: QueryState<Q::Value>,
    now: Revision,
    revision: Revision,
    read: Result<StampedValue<Q::Value>, ReadError>,
)
    requires
        slot.upgrades_from(db, now, me, QueryState::Memoized(old), after, read),
        old.value is Some,
        !old.is_current(now),
        !old.validation_outcome(db, true),
        old.changed_at@ <= revision@,
        forall|
            database_key: DatabaseKey,
            computed: ComputedQueryResult<Result<Q::Value, CycleDetected>>,
            revision_after: Revision,
        | #[trigger]
            slot.ran_query(db, database_key, computed, revision_after) ==> {
                &&& computed.value is Ok
                &&& revision_after == now
                &&& computed.durability.level() >= old.durability.level()
                &&& forall|equal: bool| #[trigger]
                    reports_equal::<Q::Key, Q::Value, MP>(
                        old.value->0,
                        computed.value->Ok_0,
                        equal,
                    ) ==> equal
            },
    ensures
        read matches Ok(stamped) ==> stamped.changed_at == old.changed_at && !(stamped.changed_at@
            > revision@),
        read is Ok || read == Err::<StampedValue<Q::Value>, ReadError>(ReadError::PlaceholderLost),
{
    let state = QueryState::Memoized(old);
    let probed = choose|probed: ProbeState<Q::Value>| #[trigger]
        slot.probes(db, state, now, probed) && match probed {
            ProbeState::StaleOrAbsent => after.owner() == Some(me) && exists|
                database_key: DatabaseKey,
                memo: Option<Memo<Q::Value>>,
                refreshed: Result<StampedValue<Q::Value>, ReadError>,
            |
                reports_database_key::<DB, Q>(db, slot.key(), database_key)
                    && #[trigger] slot.refreshes(db, database_key, state.memo(), memo, now, refreshed)
                    && slot.finishes(db, me, database_key, memo, refreshed, read),
            _ => after == state && slot.settled_by(db, probed, read),
        };
    assert(probed is StaleOrAbsent);
    let (database_key, memo, refreshed) = choose|
        database_key: DatabaseKey,
        memo: Option<Memo<Q::Value>>,
        refreshed: Result<StampedValue<Q::Value>, ReadError>,
    |
        reports_database_key::<DB, Q>(db, slot.key(), database_key) && #[trigger]
        slot.refreshes(db, database_key, state.memo(), memo, now, refreshed) && slot.finishes(
            db,
            me,
            database_key,
            memo,
            refreshed,
            read,
        );
    slot.lemma_finishes(db, me, database_key, memo, refreshed, read);
    assert(refreshed matches Ok(stamped) && stamped.changed_at == old.changed_at);
}

} // verus!
