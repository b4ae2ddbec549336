//! Slots at work in a small database: inputs that can be written, queries
//! that read them and each other, a runtime that records what is read, and
//! a list of recently used slots.

use derived_slot::waiting::{abandon_waiters, notify_waiters, wait_for_value};
use derived_slot::{
    AlwaysMemoizeValue, ChangePlan, ChangeProbe, ComputedQueryResult, CycleDetected, Database, DatabaseKey,
    DependencySet, DiscardIf, DiscardWhat, Durability, Event, EventKind, IllegalStrategy, Memo,
    MemoInputs, MemoizationPolicy, NeverMemoizeValue, ProbeState, QueryFunction, QueryState,
    ReadError, Revision, RuntimeId, Slot, StampedValue, SweepStrategy,
};
use std::collections::HashMap;
use std::sync::atomic::{AtomicUsize, Ordering};
use std::sync::{Arc, Mutex};

static N_POTATOES: AtomicUsize = AtomicUsize::new(0);

#[derive(Debug, PartialEq, Eq)]
struct HotPotato(u32);

impl HotPotato {
    fn new(id: u32) -> HotPotato {
        N_POTATOES.fetch_add(1, Ordering::SeqCst);
        HotPotato(id)
    }
}

impl Drop for HotPotato {
    fn drop(&mut self) {
        N_POTATOES.fetch_sub(1, Ordering::SeqCst);
    }
}

const INPUT: u32 = 0;
const GET: u32 = 1;
const GET_VOLATILE: u32 = 2;
const HALF: u32 = 3;
const TENFOLD: u32 = 4;
const PING: u32 = 5;
const PONG: u32 = 6;
const SUM: u32 = 7;
const MIRROR: u32 = 8;
const FRESH: u32 = 9;
const NOTHING: u32 = 10;

struct ActiveQuery {
    dependencies: Option<DependencySet>,
    durability: Durability,
    changed_at: Revision,
}

struct Input {
    value: u32,
    durability: Durability,
    changed_at: Revision,
}

type SlotOf<Q, MP> = Arc<Slot<TestDb, Q, MP>>;

/// The policy of the queries whose values are kept.
type Kept<Q> = AlwaysMemoizeValue<u32, <Q as QueryFunction<TestDb>>::Value>;

struct Table<Q: QueryFunction<TestDb>, MP: MemoizationPolicy<Q::Key, Q::Value>> {
    slots: Mutex<HashMap<u32, SlotOf<Q, MP>>>,
    capacity: Mutex<usize>,
    recently_used: Mutex<Vec<SlotOf<Q, MP>>>,
}

impl<Q: QueryFunction<TestDb, Key = u32>, MP: MemoizationPolicy<u32, Q::Value>> Table<Q, MP> {
    fn new() -> Self {
        Table {
            slots: Mutex::new(HashMap::new()),
            capacity: Mutex::new(0),
            recently_used: Mutex::new(Vec::new()),
        }
    }

    fn slot(&self, key: u32) -> SlotOf<Q, MP> {
        let mut slots = self.slots.lock().unwrap();
        slots.entry(key).or_insert_with(|| Arc::new(Slot::new(key))).clone()
    }

    fn record_use(&self, slot: &SlotOf<Q, MP>) {
        let capacity = *self.capacity.lock().unwrap();
        if capacity == 0 {
            return;
        }
        let evicted = {
            let mut list = self.recently_used.lock().unwrap();
            if slot.lru_index().is_in_lru() {
                list.retain(|other| !Arc::ptr_eq(other, slot));
            }
            list.insert(0, slot.clone());
            slot.lru_index().store(0);
            if list.len() > capacity {
                list.pop()
            } else {
                None
            }
        };
        if let Some(evicted) = evicted {
            evicted.lru_index().clear();
            evicted.evict();
        }
    }

    fn set_lru_capacity(&self, capacity: usize) {
        *self.capacity.lock().unwrap() = capacity;
        let mut list = self.recently_used.lock().unwrap();
        if capacity == 0 {
            for slot in list.drain(..) {
                slot.lru_index().clear();
            }
        } else {
            while list.len() > capacity {
                let evicted = list.pop().unwrap();
                evicted.lru_index().clear();
                evicted.evict();
            }
        }
    }
}

struct TestDb {
    id: RuntimeId,
    may_block: bool,
    revisions: Mutex<[u64; 3]>,
    inputs: Mutex<HashMap<u32, Input>>,
    stack: Mutex<Vec<ActiveQuery>>,
    events: Mutex<Vec<Event>>,
    executed: Mutex<Vec<DatabaseKey>>,
    asked: Mutex<Vec<(DatabaseKey, Revision)>>,
    unblocked: Mutex<Vec<DatabaseKey>>,
    seen: Mutex<Vec<String>>,
    volatile_counter: AtomicUsize,
    fresh_counter: AtomicUsize,
    move_revision_while_executing: Mutex<bool>,
    peer: Mutex<Option<Arc<TestDb>>>,
    get: Table<Get, Kept<Get>>,
    get_volatile: Table<GetVolatile, Kept<GetVolatile>>,
    half: Table<Half, Kept<Half>>,
    tenfold: Table<Tenfold, Kept<Tenfold>>,
    ping: Table<Ping, Kept<Ping>>,
    pong: Table<Pong, Kept<Pong>>,
    sum: Table<Sum, Kept<Sum>>,
    mirror: Table<Mirror, Kept<Mirror>>,
    fresh: Table<Fresh, NeverMemoizeValue>,
    nothing: Table<Nothing, Kept<Nothing>>,
}

impl TestDb {
    fn new() -> TestDb {
        TestDb::with_id(1, true)
    }

    fn with_id(id: usize, may_block: bool) -> TestDb {
        TestDb {
            id: RuntimeId { counter: id },
            may_block,
            revisions: Mutex::new([1, 1, 1]),
            inputs: Mutex::new(HashMap::new()),
            stack: Mutex::new(Vec::new()),
            events: Mutex::new(Vec::new()),
            executed: Mutex::new(Vec::new()),
            asked: Mutex::new(Vec::new()),
            unblocked: Mutex::new(Vec::new()),
            seen: Mutex::new(Vec::new()),
            volatile_counter: AtomicUsize::new(0),
            fresh_counter: AtomicUsize::new(0),
            move_revision_while_executing: Mutex::new(false),
            peer: Mutex::new(None),
            get: Table::new(),
            get_volatile: Table::new(),
            half: Table::new(),
            tenfold: Table::new(),
            ping: Table::new(),
            pong: Table::new(),
            sum: Table::new(),
            mirror: Table::new(),
            fresh: Table::new(),
            nothing: Table::new(),
        }
    }

    fn revision(&self) -> Revision {
        Revision::from_generation(self.revisions.lock().unwrap()[0])
    }

    /// Writes an input. Every write opens a new revision, and counts as a
    /// change to the inputs of the durability that the input had or gets,
    /// and of every lower one.
    fn set_input(&self, key: u32, value: u32, durability: Durability) {
        let mut revisions = self.revisions.lock().unwrap();
        let mut inputs = self.inputs.lock().unwrap();
        let next = revisions[0] + 1;
        let mut highest = durability;
        if let Some(old) = inputs.get(&key) {
            if old.durability.is_at_least(highest) {
                highest = old.durability;
            }
        }
        for level in 0..=(highest.index() as usize) {
            revisions[level] = next;
        }
        inputs.insert(key, Input { value, durability, changed_at: Revision::from_generation(next) });
    }

    fn report_read(&self, database_key: DatabaseKey, durability: Durability, changed_at: Revision) {
        if let Some(top) = self.stack.lock().unwrap().last_mut() {
            if let Some(set) = &mut top.dependencies {
                set.insert(database_key);
            }
            top.durability = top.durability.min(durability);
            if changed_at.is_after(top.changed_at) {
                top.changed_at = changed_at;
            }
        }
    }

    fn report_untracked_read(&self) {
        let now = self.revision();
        if let Some(top) = self.stack.lock().unwrap().last_mut() {
            top.dependencies = None;
            top.durability = Durability::Low;
            top.changed_at = now;
        }
    }

    fn input(&self, key: u32) -> u32 {
        let (value, durability, changed_at) = {
            let inputs = self.inputs.lock().unwrap();
            let input = inputs.get(&key).expect("input was never set");
            (input.value, input.durability, input.changed_at)
        };
        self.report_read(DatabaseKey::new(INPUT, key as u64), durability, changed_at);
        value
    }

    fn fetch<Q, MP>(&self, table: &Table<Q, MP>, key: u32) -> Result<Q::Value, CycleDetected>
    where
        Q: QueryFunction<TestDb, Key = u32>,
        MP: MemoizationPolicy<u32, Q::Value>,
    {
        let slot = table.slot(key);
        match slot.read(self) {
            Ok(stamped) => {
                table.record_use(&slot);
                self.report_read(slot.database_key(self), stamped.durability, stamped.changed_at);
                Ok(stamped.value)
            }
            Err(ReadError::Cycle) => Err(CycleDetected),
            Err(other) => panic!("the read failed: {:?}", other),
        }
    }

    fn executions_of(&self, query: u32) -> usize {
        self.executed.lock().unwrap().iter().filter(|key| key.query_index == query).count()
    }

    fn asked_about(&self, query: u32) -> usize {
        self.asked.lock().unwrap().iter().filter(|(key, _)| key.query_index == query).count()
    }

    fn validations(&self) -> usize {
        self.events
            .lock()
            .unwrap()
            .iter()
            .filter(|event| matches!(event.kind, EventKind::DidValidateMemoizedValue { .. }))
            .count()
    }
}

impl Database for TestDb {
    fn current_revision(&self) -> Revision {
        self.revision()
    }

    fn last_changed_revision(&self, durability: Durability) -> Revision {
        Revision::from_generation(self.revisions.lock().unwrap()[durability.index() as usize])
    }

    fn id(&self) -> RuntimeId {
        self.id
    }

    fn try_block_on(&self, _database_key: &DatabaseKey, _other_id: RuntimeId) -> bool {
        self.may_block
    }

    fn unblock_queries_blocked_on_self(&self, database_key: &DatabaseKey) {
        self.unblocked.lock().unwrap().push(*database_key);
    }

    fn maybe_changed_since(&self, input: &DatabaseKey, revision: Revision) -> bool {
        self.asked.lock().unwrap().push((*input, revision));
        let key = input.key_index as u32;
        let answer = match input.query_index {
            INPUT => Ok(self.inputs.lock().unwrap()[&key].changed_at.is_after(revision)),
            HALF => self.half.slot(key).maybe_changed_since(self, revision),
            TENFOLD => self.tenfold.slot(key).maybe_changed_since(self, revision),
            SUM => self.sum.slot(key).maybe_changed_since(self, revision),
            GET_VOLATILE => self.get_volatile.slot(key).maybe_changed_since(self, revision),
            NOTHING => self.nothing.slot(key).maybe_changed_since(self, revision),
            other => panic!("no walk through query {}", other),
        };
        answer.expect("the walk failed")
    }

    fn begin_query(&self, database_key: &DatabaseKey) {
        self.executed.lock().unwrap().push(*database_key);
        self.stack.lock().unwrap().push(ActiveQuery {
            dependencies: Some(DependencySet::new()),
            durability: Durability::High,
            changed_at: Revision::from_generation(1),
        });
    }

    fn end_query<V>(&self, _database_key: &DatabaseKey, value: V) -> ComputedQueryResult<V> {
        let done = self.stack.lock().unwrap().pop().unwrap();
        if *self.move_revision_while_executing.lock().unwrap() {
            self.revisions.lock().unwrap()[0] += 1;
        }
        ComputedQueryResult {
            value,
            durability: done.durability,
            changed_at: done.changed_at,
            dependencies: done.dependencies,
        }
    }

    fn on_propagated_panic<T>(&self) -> T {
        panic!("the runtime that computed the value gave up")
    }

    fn salsa_event(&self, event: Event) {
        self.events.lock().unwrap().push(event);
    }
}

struct Get;

impl QueryFunction<TestDb> for Get {
    type Key = u32;
    type Value = Arc<HotPotato>;

    fn database_key(_db: &TestDb, key: &u32) -> DatabaseKey {
        DatabaseKey::new(GET, *key as u64)
    }

    fn execute(_db: &TestDb, key: &u32) -> Result<Arc<HotPotato>, CycleDetected> {
        Ok(Arc::new(HotPotato::new(*key)))
    }
}

struct GetVolatile;

impl QueryFunction<TestDb> for GetVolatile {
    type Key = u32;
    type Value = usize;

    fn database_key(_db: &TestDb, key: &u32) -> DatabaseKey {
        DatabaseKey::new(GET_VOLATILE, *key as u64)
    }

    fn execute(db: &TestDb, _key: &u32) -> Result<usize, CycleDetected> {
        db.report_untracked_read();
        Ok(db.volatile_counter.fetch_add(1, Ordering::SeqCst))
    }
}

/// Half of an input, rounded down: two inputs can have the same half.
struct Half;

impl QueryFunction<TestDb> for Half {
    type Key = u32;
    type Value = u32;

    fn database_key(_db: &TestDb, key: &u32) -> DatabaseKey {
        DatabaseKey::new(HALF, *key as u64)
    }

    fn execute(db: &TestDb, key: &u32) -> Result<u32, CycleDetected> {
        Ok(db.input(*key) / 2)
    }
}

/// Ten times the half of an input.
struct Tenfold;

impl QueryFunction<TestDb> for Tenfold {
    type Key = u32;
    type Value = u32;

    fn database_key(_db: &TestDb, key: &u32) -> DatabaseKey {
        DatabaseKey::new(TENFOLD, *key as u64)
    }

    fn execute(db: &TestDb, key: &u32) -> Result<u32, CycleDetected> {
        Ok(db.fetch(&db.half, *key)? * 10)
    }
}

struct Ping;

impl QueryFunction<TestDb> for Ping {
    type Key = u32;
    type Value = u32;

    fn database_key(_db: &TestDb, key: &u32) -> DatabaseKey {
        DatabaseKey::new(PING, *key as u64)
    }

    fn execute(db: &TestDb, key: &u32) -> Result<u32, CycleDetected> {
        Ok(db.fetch(&db.pong, *key)? + 1)
    }
}

struct Pong;

impl QueryFunction<TestDb> for Pong {
    type Key = u32;
    type Value = u32;

    fn database_key(_db: &TestDb, key: &u32) -> DatabaseKey {
        DatabaseKey::new(PONG, *key as u64)
    }

    fn execute(db: &TestDb, key: &u32) -> Result<u32, CycleDetected> {
        Ok(db.fetch(&db.ping, *key)? + 1)
    }
}

/// The sum of the inputs `key`, `key + 1` and `key` once more.
struct Sum;

impl QueryFunction<TestDb> for Sum {
    type Key = u32;
    type Value = u32;

    fn database_key(_db: &TestDb, key: &u32) -> DatabaseKey {
        DatabaseKey::new(SUM, *key as u64)
    }

    fn execute(db: &TestDb, key: &u32) -> Result<u32, CycleDetected> {
        Ok(db.input(*key) + db.input(*key + 1) + db.input(*key))
    }
}

/// Looks at its own slot, and asks a second runtime to read it, while it is
/// being computed.
struct Mirror;

impl QueryFunction<TestDb> for Mirror {
    type Key = u32;
    type Value = u32;

    fn database_key(_db: &TestDb, key: &u32) -> DatabaseKey {
        DatabaseKey::new(MIRROR, *key as u64)
    }

    fn execute(db: &TestDb, key: &u32) -> Result<u32, CycleDetected> {
        let slot = db.mirror.slot(*key);
        let entry = slot.as_table_entry();
        db.seen.lock().unwrap().push(format!("entry {:?}", entry.map(|e| (e.key, e.value))));
        db.seen.lock().unwrap().push(format!("durability {:?}", slot.durability(db)));
        slot.evict();
        slot.sweep(
            db.revision(),
            SweepStrategy { discard_if: DiscardIf::Always, discard_what: DiscardWhat::Everything },
        );
        db.seen.lock().unwrap().push(format!("swept {:?}", slot.as_table_entry().is_some()));
        let peer = db.peer.lock().unwrap().clone();
        if let Some(peer) = peer {
            db.seen.lock().unwrap().push(format!("peer {:?}", slot.read(&*peer).map(|s| s.value)));
            db.seen.lock().unwrap().push(format!(
                "peer asks {:?}",
                slot.maybe_changed_since(&*peer, Revision::from_generation(1))
            ));
        }
        db.seen.lock().unwrap().push(format!("own {:?}", slot.read(db).map(|s| s.value)));
        Ok(*key)
    }
}

/// A query whose values are not kept: a counter read through an input.
struct Fresh;

impl QueryFunction<TestDb> for Fresh {
    type Key = u32;
    type Value = usize;

    fn database_key(_db: &TestDb, key: &u32) -> DatabaseKey {
        DatabaseKey::new(FRESH, *key as u64)
    }

    fn execute(db: &TestDb, key: &u32) -> Result<usize, CycleDetected> {
        let _ = db.input(*key);
        Ok(db.fresh_counter.fetch_add(1, Ordering::SeqCst))
    }
}

/// A query that reads nothing.
struct Nothing;

impl QueryFunction<TestDb> for Nothing {
    type Key = u32;
    type Value = u32;

    fn database_key(_db: &TestDb, key: &u32) -> DatabaseKey {
        DatabaseKey::new(NOTHING, *key as u64)
    }

    fn execute(_db: &TestDb, key: &u32) -> Result<u32, CycleDetected> {
        Ok(*key + 1000)
    }
}

#[test]
fn lru_works() {
    let db = TestDb::new();
    db.get.set_lru_capacity(32);
    assert_eq!(N_POTATOES.load(Ordering::SeqCst), 0);

    for i in 0..128u32 {
        let p = db.fetch(&db.get, i).unwrap();
        assert_eq!(p.0, i)
    }
    assert_eq!(N_POTATOES.load(Ordering::SeqCst), 32);

    for i in 0..128u32 {
        let p = db.fetch(&db.get, i).unwrap();
        assert_eq!(p.0, i)
    }
    assert_eq!(N_POTATOES.load(Ordering::SeqCst), 32);

    db.get.set_lru_capacity(32);
    assert_eq!(N_POTATOES.load(Ordering::SeqCst), 32);

    db.get.set_lru_capacity(64);
    assert_eq!(N_POTATOES.load(Ordering::SeqCst), 32);
    for i in 0..128u32 {
        let p = db.fetch(&db.get, i).unwrap();
        assert_eq!(p.0, i)
    }
    assert_eq!(N_POTATOES.load(Ordering::SeqCst), 64);

    // Special case: setting capacity to zero disables LRU
    db.get.set_lru_capacity(0);
    assert_eq!(N_POTATOES.load(Ordering::SeqCst), 64);
    for i in 0..128u32 {
        let p = db.fetch(&db.get, i).unwrap();
        assert_eq!(p.0, i)
    }
    assert_eq!(N_POTATOES.load(Ordering::SeqCst), 128);

    drop(db);
    assert_eq!(N_POTATOES.load(Ordering::SeqCst), 0);
}

#[test]
fn lru_doesnt_break_volatile_queries() {
    let db = TestDb::new();
    db.get_volatile.set_lru_capacity(32);
    // Here, we check that we execute each volatile query at most once, despite
    // LRU. That does mean that we have more values in DB than the LRU capacity,
    // but it's much better than inconsistent results from volatile queries!
    for i in (0..3).flat_map(|_| 0..128usize) {
        let x = db.fetch(&db.get_volatile, i as u32).unwrap();
        assert_eq!(x, i)
    }
}

#[test]
fn reads_in_one_revision_agree() {
    let db = TestDb::new();
    db.set_input(4, 9, Durability::Low);
    let slot = db.half.slot(4);
    let first = slot.read(&db).unwrap();
    let second = slot.read(&db).unwrap();
    assert_eq!(first.value, 4);
    assert_eq!(second.value, 4);
    assert_eq!(first.changed_at, Revision::from_generation(2));
    assert_eq!(second.changed_at, first.changed_at);
    assert_eq!(second.durability, first.durability);
    assert_eq!(db.executions_of(HALF), 1);

    // Another runtime in the same revision gets the same, and runs
    // nothing.
    let other = TestDb::with_id(2, true);
    *other.revisions.lock().unwrap() = [2, 2, 2];
    let third = slot.read(&other).unwrap();
    assert_eq!(third.value, 4);
    assert_eq!(third.changed_at, first.changed_at);
    assert_eq!(third.durability, first.durability);
    assert_eq!(other.executions_of(HALF), 0);
    assert!(other.events.lock().unwrap().is_empty());
}

#[test]
fn backdating_suppresses_downstream_recompute() {
    let db = TestDb::new();
    db.set_input(1, 10, Durability::Low);
    assert_eq!(db.fetch(&db.tenfold, 1), Ok(50));
    let before = db.tenfold.slot(1).read(&db).unwrap();
    assert_eq!(before.changed_at, Revision::from_generation(2));
    assert_eq!(db.executions_of(HALF), 1);
    assert_eq!(db.executions_of(TENFOLD), 1);

    // The input changes, its half does not.
    db.set_input(1, 11, Durability::Low);
    assert_eq!(db.revision(), Revision::from_generation(3));
    let after = db.tenfold.slot(1).read(&db).unwrap();
    assert_eq!(after.value, 50);
    assert_eq!(after.changed_at, before.changed_at);
    assert_eq!(db.executions_of(HALF), 2);
    assert_eq!(db.executions_of(TENFOLD), 1);
    let half = db.half.slot(1).read(&db).unwrap();
    assert_eq!(half.value, 5);
    assert_eq!(half.changed_at, Revision::from_generation(2));

    // Now the half changes too.
    db.set_input(1, 12, Durability::Low);
    let last = db.tenfold.slot(1).read(&db).unwrap();
    assert_eq!(last.value, 60);
    assert_eq!(last.changed_at, Revision::from_generation(4));
    assert_eq!(db.executions_of(HALF), 3);
    assert_eq!(db.executions_of(TENFOLD), 2);
}

#[test]
fn a_less_durable_value_is_not_backdated() {
    let db = TestDb::new();
    db.set_input(1, 10, Durability::High);
    let before = db.half.slot(1).read(&db).unwrap();
    assert_eq!(before.durability, Durability::High);
    assert_eq!(before.changed_at, Revision::from_generation(2));

    // The same half, from an input that has become less durable.
    db.set_input(1, 11, Durability::Low);
    let after = db.half.slot(1).read(&db).unwrap();
    assert_eq!(after.value, 5);
    assert_eq!(after.durability, Durability::Low);
    assert_eq!(after.changed_at, Revision::from_generation(3));

    // The other way round the stamp is kept.
    db.set_input(1, 10, Durability::High);
    let last = db.half.slot(1).read(&db).unwrap();
    assert_eq!(last.durability, Durability::High);
    assert_eq!(last.changed_at, Revision::from_generation(3));
}

#[test]
fn durability_short_circuit() {
    let db = TestDb::new();
    db.set_input(5, 42, Durability::High);
    db.set_input(6, 1, Durability::Low);
    let slot = db.half.slot(5);
    let first = slot.read(&db).unwrap();
    assert_eq!(first.value, 21);
    assert_eq!(first.durability, Durability::High);
    assert_eq!(slot.durability(&db), Some(Durability::High));
    assert_eq!(db.executions_of(HALF), 1);

    // Only an input of low durability is written.
    db.set_input(6, 2, Durability::Low);
    assert_eq!(db.revision(), Revision::from_generation(4));
    assert_eq!(slot.durability(&db), Some(Durability::High));
    let second = slot.read(&db).unwrap();
    assert_eq!(second.value, 21);
    assert_eq!(second.changed_at, first.changed_at);
    assert_eq!(db.executions_of(HALF), 1);
    assert_eq!(db.asked_about(INPUT), 0);
    assert_eq!(db.validations(), 1);
    assert_eq!(
        db.events.lock().unwrap()[0],
        Event {
            runtime_id: RuntimeId { counter: 1 },
            kind: EventKind::DidValidateMemoizedValue { database_key: DatabaseKey::new(HALF, 5) },
        }
    );

    // The memo is verified now: the next read finds it up to date.
    let third = slot.read(&db).unwrap();
    assert_eq!(third.value, 21);
    assert_eq!(db.validations(), 1);

    // A write to an input of high durability takes the voucher away.
    db.set_input(7, 0, Durability::High);
    assert_eq!(slot.durability(&db), Some(Durability::Low));
    let fourth = slot.read(&db).unwrap();
    assert_eq!(fourth.value, 21);
    assert_eq!(db.executions_of(HALF), 1);
    assert_eq!(db.asked_about(INPUT), 1);
    assert_eq!(db.validations(), 2);
    assert_eq!(slot.durability(&db), Some(Durability::High));
}

#[test]
fn cycle_detection() {
    let db = TestDb::new();
    db.set_input(1, 10, Durability::Low);
    assert_eq!(db.ping.slot(1).read(&db).map(|s| s.value), Err(ReadError::Cycle));
    assert_eq!(db.executions_of(PING), 1);
    assert_eq!(db.executions_of(PONG), 1);
    assert!(db.ping.slot(1).as_table_entry().is_none());
    assert!(db.pong.slot(1).as_table_entry().is_none());
    assert!(db.stack.lock().unwrap().is_empty());
    assert_eq!(
        *db.unblocked.lock().unwrap(),
        vec![DatabaseKey::new(PONG, 1), DatabaseKey::new(PING, 1)]
    );

    // Other reads go through, and a second try finds the cycle again.
    assert_eq!(db.fetch(&db.tenfold, 1), Ok(50));
    assert_eq!(db.fetch(&db.pong, 1), Err(CycleDetected));
    assert_eq!(db.executions_of(PING), 2);
    assert!(db.pong.slot(1).as_table_entry().is_none());
}

#[test]
fn untracked_inputs_defeat_validation() {
    let db = TestDb::new();
    let slot = db.get_volatile.slot(1);
    let first = slot.read(&db).unwrap();
    assert_eq!(first.value, 0);
    assert_eq!(first.durability, Durability::Low);
    assert_eq!(first.changed_at, Revision::from_generation(1));
    assert_eq!(slot.read(&db).unwrap().value, 0);

    // Any write opens a new revision, and the query runs again.
    db.set_input(9, 9, Durability::High);
    assert_eq!(slot.durability(&db), Some(Durability::Low));
    let second = slot.read(&db).unwrap();
    assert_eq!(second.value, 1);
    assert_eq!(second.changed_at, Revision::from_generation(2));
    assert_eq!(db.executions_of(GET_VOLATILE), 2);
    assert_eq!(db.validations(), 0);
    assert_eq!(slot.maybe_changed_since(&db, Revision::from_generation(1)), Ok(true));
    assert_eq!(slot.maybe_changed_since(&db, Revision::from_generation(2)), Ok(false));

    // Whoever asks in a later revision is told that it may have changed.
    db.set_input(9, 9, Durability::High);
    assert_eq!(slot.maybe_changed_since(&db, Revision::from_generation(2)), Ok(true));
    assert_eq!(db.executions_of(GET_VOLATILE), 2);
}

#[test]
fn evictions_spare_what_was_read_untracked() {
    let db = TestDb::new();
    db.set_input(1, 10, Durability::Low);
    let volatile = db.get_volatile.slot(3);
    let half = db.half.slot(1);
    assert_eq!(volatile.read(&db).unwrap().value, 0);
    assert_eq!(half.read(&db).unwrap().value, 5);
    for _ in 0..5 {
        volatile.evict();
        half.evict();
    }
    assert_eq!(volatile.as_table_entry().unwrap().value, Some(0));
    assert_eq!(half.as_table_entry().unwrap().value, None);
    assert_eq!(half.as_table_entry().unwrap().key, 1);

    // The evicted value is computed again; it takes over the old stamp.
    let again = half.read(&db).unwrap();
    assert_eq!(again.value, 5);
    assert_eq!(db.executions_of(HALF), 2);
    assert_eq!(volatile.read(&db).unwrap().value, 0);
    assert_eq!(db.executions_of(GET_VOLATILE), 1);
}

#[test]
fn sweeps_discard_what_the_strategy_names() {
    let db = TestDb::new();
    db.set_input(1, 10, Durability::Low);
    let now = db.revision();
    let outdated_values =
        SweepStrategy { discard_if: DiscardIf::Outdated, discard_what: DiscardWhat::Values };
    let always_values =
        SweepStrategy { discard_if: DiscardIf::Always, discard_what: DiscardWhat::Values };
    let always_everything =
        SweepStrategy { discard_if: DiscardIf::Always, discard_what: DiscardWhat::Everything };
    let outdated_everything =
        SweepStrategy { discard_if: DiscardIf::Outdated, discard_what: DiscardWhat::Everything };

    let half = db.half.slot(1);
    let volatile = db.get_volatile.slot(1);
    half.sweep(now, always_everything);
    assert!(half.as_table_entry().is_none());
    half.read(&db).unwrap();
    volatile.read(&db).unwrap();

    // What is current stays if only outdated memos are to go.
    half.sweep(now, outdated_values);
    half.sweep(now, outdated_everything);
    assert_eq!(half.as_table_entry().unwrap().value, Some(5));
    // A current memo with untracked inputs stays in any case.
    volatile.sweep(now, always_values);
    volatile.sweep(now, always_everything);
    assert_eq!(volatile.as_table_entry().unwrap().value, Some(0));

    half.sweep(now, always_values);
    assert_eq!(half.as_table_entry().unwrap().value, None);
    half.sweep(now, always_everything);
    assert!(half.as_table_entry().is_none());

    // In the next revision both are outdated.
    half.read(&db).unwrap();
    db.set_input(2, 0, Durability::Low);
    let later = db.revision();
    half.sweep(later, outdated_values);
    assert_eq!(half.as_table_entry().unwrap().value, None);
    volatile.sweep(later, outdated_everything);
    assert!(volatile.as_table_entry().is_none());
}

#[test]
fn no_sweep_is_made_with_an_illegal_strategy() {
    let db = TestDb::new();
    db.set_input(1, 10, Durability::Low);
    let half = db.half.slot(1);
    half.read(&db).unwrap();
    let now = db.revision();
    // Whoever sweeps asks first whether the strategy is one to sweep
    // with, and makes no sweep if it is not.
    let sweep_if_legal = |strategy: SweepStrategy| match strategy.check() {
        Ok(()) => {
            half.sweep(now, strategy);
            true
        }
        Err(IllegalStrategy) => false,
    };
    for discard_what in [DiscardWhat::Nothing, DiscardWhat::Values, DiscardWhat::Everything] {
        assert!(!sweep_if_legal(SweepStrategy { discard_if: DiscardIf::Never, discard_what }));
    }
    for discard_if in [DiscardIf::Outdated, DiscardIf::Always] {
        assert!(!sweep_if_legal(SweepStrategy { discard_if, discard_what: DiscardWhat::Nothing }));
    }
    assert_eq!(half.as_table_entry().unwrap().value, Some(5));
    assert!(sweep_if_legal(SweepStrategy {
        discard_if: DiscardIf::Always,
        discard_what: DiscardWhat::Values
    }));
    assert_eq!(half.as_table_entry().unwrap().value, None);
}

#[test]
fn a_slot_in_progress_is_left_alone() {
    let db = TestDb::new();
    *db.peer.lock().unwrap() = Some(Arc::new(TestDb::with_id(2, false)));
    assert_eq!(db.mirror.slot(7).read(&db).map(|s| s.value), Ok(7));
    assert_eq!(
        *db.seen.lock().unwrap(),
        vec![
            "entry Some((7, None))".to_string(),
            "durability None".to_string(),
            "swept true".to_string(),
            "peer Err(Cycle)".to_string(),
            "peer asks Ok(true)".to_string(),
            "own Err(Cycle)".to_string(),
        ]
    );
    // The marker was still there when the computation came to its end.
    assert_eq!(db.mirror.slot(7).as_table_entry().unwrap().value, Some(7));
    assert_eq!(db.executions_of(MIRROR), 1);
    assert!(db.events.lock().unwrap().is_empty());
}

#[test]
fn a_runtime_that_may_wait_is_told_the_value() {
    // The state of a slot whose value the runtime 9 computes.
    let db = TestDb::new();
    let slot = db.half.slot(1);
    let owner = RuntimeId { counter: 9 };
    let mut state: QueryState<u32> = QueryState::in_progress(owner);
    let now = db.revision();

    let first = match slot.probe(&db, &state, now) {
        ProbeState::BlockedOn(other_id, receiver) => {
            assert_eq!(other_id, owner);
            receiver
        }
        _ => panic!("the runtime was to be registered"),
    };
    let second = match slot.plan_change(&db, &state, now, now) {
        ChangePlan::BlockedOn(receiver) => receiver,
        _ => panic!("the runtime was to be registered"),
    };

    // The computation comes to its end, and both are told.
    let memo = Memo {
        value: Some(5),
        verified_at: now,
        changed_at: now,
        durability: Durability::Medium,
        inputs: MemoInputs::NoInputs,
    };
    let waiting = state.overwrite_placeholder(owner, Some(memo)).ok().unwrap();
    let stamped = StampedValue { value: 5, durability: Durability::Medium, changed_at: now };
    assert_eq!(notify_waiters(waiting, &stamped), 2);
    for receiver in [first, second] {
        let told = wait_for_value(receiver).unwrap();
        assert_eq!(told.value, 5);
        assert_eq!(told.durability, Durability::Medium);
        assert_eq!(told.changed_at, now);
    }
    match slot.probe(&db, &state, now) {
        ProbeState::UpToDate(Ok(stamped)) => assert_eq!(stamped.value, 5),
        _ => panic!("the value was to be up to date"),
    }
}

#[test]
fn a_runtime_that_waits_learns_that_the_computation_was_given_up() {
    let db = TestDb::new();
    let slot = db.half.slot(1);
    let owner = RuntimeId { counter: 9 };
    let mut state: QueryState<u32> = QueryState::in_progress(owner);
    let receiver = match slot.probe(&db, &state, db.revision()) {
        ProbeState::BlockedOn(_, receiver) => receiver,
        _ => panic!("the runtime was to be registered"),
    };
    let waiting = state.overwrite_placeholder(owner, None).ok().unwrap();
    abandon_waiters(waiting);
    assert!(wait_for_value(receiver).is_none());
    assert!(matches!(state, QueryState::NotComputed));
}

#[test]
fn a_runtime_that_may_not_wait_is_told_of_a_cycle() {
    let db = TestDb::with_id(1, false);
    let slot = db.half.slot(1);
    let now = db.revision();
    let other: QueryState<u32> = QueryState::in_progress(RuntimeId { counter: 9 });
    assert!(matches!(slot.probe(&db, &other, now), ProbeState::UpToDate(Err(CycleDetected))));
    assert!(matches!(
        slot.plan_change(&db, &other, now, now),
        ChangePlan::Probe(ChangeProbe::Known(true))
    ));
    // Nobody was registered.
    let mut other = other;
    let waiting = other.overwrite_placeholder(RuntimeId { counter: 9 }, None).ok().unwrap();
    let stamped = StampedValue { value: 5, durability: Durability::Low, changed_at: now };
    assert_eq!(notify_waiters(waiting, &stamped), 0);

    // Its own marker is a cycle whatever the database allows.
    let db = TestDb::new();
    let own: QueryState<u32> = QueryState::in_progress(RuntimeId { counter: 1 });
    assert!(matches!(slot.probe(&db, &own, now), ProbeState::UpToDate(Err(CycleDetected))));
}

#[test]
fn inputs_are_walked_in_order_up_to_the_first_change() {
    let db = TestDb::new();
    db.set_input(1, 1, Durability::Low);
    db.set_input(2, 2, Durability::Low);
    let slot = db.sum.slot(1);
    assert_eq!(slot.read(&db).unwrap().value, 4);
    assert_eq!(slot.read(&db).unwrap().changed_at, Revision::from_generation(3));

    // An input that the query does not read is written: both inputs are
    // asked, each once, in the order in which they were read.
    db.set_input(3, 3, Durability::Low);
    assert_eq!(slot.read(&db).unwrap().value, 4);
    assert_eq!(
        *db.asked.lock().unwrap(),
        vec![
            (DatabaseKey::new(INPUT, 1), Revision::from_generation(3)),
            (DatabaseKey::new(INPUT, 2), Revision::from_generation(3)),
        ]
    );
    assert_eq!(db.executions_of(SUM), 1);
    assert_eq!(db.validations(), 1);

    // The first input is written: the second is not asked.
    db.asked.lock().unwrap().clear();
    db.set_input(1, 5, Durability::Low);
    let stamped = slot.read(&db).unwrap();
    assert_eq!(stamped.value, 12);
    assert_eq!(stamped.changed_at, Revision::from_generation(5));
    assert_eq!(
        *db.asked.lock().unwrap(),
        vec![(DatabaseKey::new(INPUT, 1), Revision::from_generation(4))]
    );
    assert_eq!(db.executions_of(SUM), 2);
}

#[test]
fn a_query_without_inputs_is_validated_without_a_walk() {
    let db = TestDb::new();
    let slot = db.nothing.slot(1);
    let first = slot.read(&db).unwrap();
    assert_eq!(first.value, 1001);
    assert_eq!(first.durability, Durability::High);
    db.set_input(1, 1, Durability::High);
    assert_eq!(slot.maybe_changed_since(&db, Revision::from_generation(1)), Ok(false));
    db.set_input(1, 2, Durability::High);
    assert_eq!(slot.read(&db).unwrap().value, 1001);
    assert_eq!(db.executions_of(NOTHING), 1);
    assert!(db.asked.lock().unwrap().is_empty());
    assert_eq!(db.validations(), 1);
}

#[test]
fn values_that_are_not_kept_are_computed_again() {
    let db = TestDb::new();
    db.set_input(1, 1, Durability::Low);
    let slot = db.fresh.slot(1);
    assert_eq!(slot.read(&db).unwrap().value, 0);
    assert_eq!(slot.as_table_entry().unwrap().value, None);
    assert_eq!(slot.read(&db).unwrap().value, 1);
    let stamped = slot.read(&db).unwrap();
    assert_eq!(stamped.value, 2);
    assert_eq!(stamped.changed_at, Revision::from_generation(2));
}

#[test]
fn a_change_is_reported_relative_to_the_revision_asked_about() {
    let db = TestDb::new();
    db.set_input(1, 10, Durability::Low);
    let slot = db.half.slot(1);
    // An empty slot counts as changed.
    assert_eq!(slot.maybe_changed_since(&db, Revision::from_generation(2)), Ok(true));
    slot.read(&db).unwrap();
    assert_eq!(slot.maybe_changed_since(&db, Revision::from_generation(1)), Ok(true));
    assert_eq!(slot.maybe_changed_since(&db, Revision::from_generation(2)), Ok(false));

    // The input changes, the half does not: the value is computed again
    // and found equal.
    db.set_input(1, 11, Durability::Low);
    assert_eq!(slot.maybe_changed_since(&db, Revision::from_generation(2)), Ok(false));
    assert_eq!(db.executions_of(HALF), 2);
    assert_eq!(slot.read(&db).unwrap().changed_at, Revision::from_generation(2));

    // Without a value the inputs are walked, and the memo goes if one of
    // them changed.
    slot.evict();
    db.set_input(2, 0, Durability::Low);
    assert_eq!(slot.maybe_changed_since(&db, Revision::from_generation(3)), Ok(false));
    assert_eq!(slot.as_table_entry().unwrap().value, None);
    db.set_input(1, 12, Durability::Low);
    assert_eq!(slot.maybe_changed_since(&db, Revision::from_generation(4)), Ok(true));
    assert!(slot.as_table_entry().is_none());
    assert_eq!(db.executions_of(HALF), 2);
}

#[test]
fn a_revision_that_moves_under_a_query_is_an_error() {
    let db = TestDb::new();
    db.set_input(1, 10, Durability::Low);
    *db.move_revision_while_executing.lock().unwrap() = true;
    let slot = db.half.slot(1);
    assert_eq!(slot.read(&db).map(|s| s.value), Err(ReadError::RevisionAltered));
    assert!(slot.as_table_entry().is_none());
    *db.move_revision_while_executing.lock().unwrap() = false;
    assert_eq!(slot.read(&db).map(|s| s.value), Ok(5));
}

fn run(value: Result<u32, CycleDetected>, durability: Durability, changed_at: u64, inputs: Option<&[u64]>)
    -> ComputedQueryResult<Result<u32, CycleDetected>>
{
    ComputedQueryResult {
        value,
        durability,
        changed_at: Revision::from_generation(changed_at),
        dependencies: inputs.map(|keys| {
            let mut set = DependencySet::new();
            for key in keys {
                set.insert(DatabaseKey::new(INPUT, *key));
            }
            set
        }),
    }
}

fn old_memo(value: Option<u32>, durability: Durability) -> Option<Memo<u32>> {
    Some(Memo {
        value,
        verified_at: Revision::from_generation(4),
        changed_at: Revision::from_generation(2),
        durability,
        inputs: MemoInputs::NoInputs,
    })
}

#[test]
fn a_run_that_reports_a_cycle_or_moves_the_revision_leaves_no_memo() {
    let db = TestDb::new();
    let slot = db.half.slot(1);
    let now = Revision::from_generation(5);
    let cycle = slot.conclude(&None, run(Err(CycleDetected), Durability::Low, 5, None), now, now);
    assert_eq!(cycle.err(), Some(ReadError::Cycle));
    // A cycle goes before a revision that moved.
    let both = slot.conclude(
        &old_memo(Some(7), Durability::Low),
        run(Err(CycleDetected), Durability::Low, 5, None),
        Revision::from_generation(6),
        now,
    );
    assert_eq!(both.err(), Some(ReadError::Cycle));
    let moved = slot.conclude(
        &None,
        run(Ok(7), Durability::Low, 5, Some(&[1])),
        Revision::from_generation(6),
        now,
    );
    assert_eq!(moved.err(), Some(ReadError::RevisionAltered));
    let back = slot.conclude(
        &None,
        run(Ok(7), Durability::Low, 5, Some(&[1])),
        Revision::from_generation(4),
        now,
    );
    assert_eq!(back.err(), Some(ReadError::RevisionAltered));
}

#[test]
fn a_run_is_recorded_as_it_came() {
    let db = TestDb::new();
    let now = Revision::from_generation(5);
    let (memo, stamped) = db
        .half
        .slot(1)
        .conclude(&None, run(Ok(7), Durability::Medium, 3, Some(&[4, 2, 4])), now, now)
        .ok()
        .unwrap();
    assert_eq!(stamped.value, 7);
    assert_eq!(stamped.durability, Durability::Medium);
    assert_eq!(stamped.changed_at, Revision::from_generation(3));
    assert_eq!(memo.value, Some(7));
    assert_eq!(memo.verified_at, now);
    assert_eq!(memo.changed_at, Revision::from_generation(3));
    assert_eq!(memo.durability, Durability::Medium);
    match memo.inputs {
        MemoInputs::TrackedInputs { inputs } => assert_eq!(
            inputs.to_vec(),
            vec![DatabaseKey::new(INPUT, 4), DatabaseKey::new(INPUT, 2)]
        ),
        _ => panic!("the inputs of the run were to be kept"),
    }

    let (memo, _) = db
        .half
        .slot(1)
        .conclude(&None, run(Ok(7), Durability::High, 1, Some(&[])), now, now)
        .ok()
        .unwrap();
    assert!(matches!(memo.inputs, MemoInputs::NoInputs));
    let (memo, stamped) = db
        .half
        .slot(1)
        .conclude(&None, run(Ok(7), Durability::Low, 5, None), now, now)
        .ok()
        .unwrap();
    assert!(matches!(memo.inputs, MemoInputs::Untracked));
    assert_eq!(memo.durability, Durability::Low);
    assert_eq!(stamped.changed_at, now);

    // A value that the policy does not keep is handed out all the same.
    let (memo, stamped) = db
        .fresh
        .slot(1)
        .conclude(&None, run_of(9), now, now)
        .ok()
        .unwrap();
    assert_eq!(memo.value, None);
    assert_eq!(stamped.value, 9);
    assert_eq!(memo.changed_at, stamped.changed_at);
}

fn run_of(value: usize) -> ComputedQueryResult<Result<usize, CycleDetected>> {
    ComputedQueryResult {
        value: Ok(value),
        durability: Durability::Low,
        changed_at: Revision::from_generation(5),
        dependencies: None,
    }
}

#[test]
fn a_run_takes_over_the_stamp_of_an_equal_value_that_was_no_more_durable() {
    let db = TestDb::new();
    let slot = db.half.slot(1);
    let now = Revision::from_generation(5);
    let stamp = |old: Option<Memo<u32>>, value: u32, durability: Durability| {
        let (memo, stamped) =
            slot.conclude(&old, run(Ok(value), durability, 5, Some(&[1])), now, now).ok().unwrap();
        assert_eq!(memo.changed_at, stamped.changed_at);
        assert_eq!(memo.verified_at, now);
        assert_eq!(stamped.durability, durability);
        assert_eq!(stamped.value, value);
        stamped.changed_at.generation()
    };
    // Equal and as durable, or more: the stamp of the old value.
    assert_eq!(stamp(old_memo(Some(7), Durability::Medium), 7, Durability::Medium), 2);
    assert_eq!(stamp(old_memo(Some(7), Durability::Medium), 7, Durability::High), 2);
    // Less durable, though equal: the stamp of the run.
    assert_eq!(stamp(old_memo(Some(7), Durability::Medium), 7, Durability::Low), 5);
    // Another value, no old value, no old memo: the stamp of the run.
    assert_eq!(stamp(old_memo(Some(7), Durability::Medium), 8, Durability::Medium), 5);
    assert_eq!(stamp(old_memo(None, Durability::Medium), 7, Durability::Medium), 5);
    assert_eq!(stamp(None, 7, Durability::Medium), 5);
}
