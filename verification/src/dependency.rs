use vstd::prelude::*;

verus! {

/// Names one (query, key) pair of a database: the number of the query and
/// the number under which the database knows the key.
#[derive(Clone, Copy, Debug, PartialEq, Eq, Structural, PartialOrd, Ord, Hash)]
pub struct DatabaseKey {
    pub query_index: u32,
    pub key_index: u64,
}

impl DatabaseKey {
    pub fn new(query_index: u32, key_index: u64) -> (k: DatabaseKey)
        ensures
            k.query_index == query_index,
            k.key_index == key_index,
    {
        DatabaseKey { query_index, key_index }
    }
}

/// The inputs that one execution of a query read, in the order in which it
/// first read them. No key occurs twice.
#[derive(Debug)]
pub struct DependencySet {
    keys: Vec<DatabaseKey>,
}

impl View for DependencySet {
    type V = Seq<DatabaseKey>;

    closed spec fn view(&self) -> Seq<DatabaseKey> {
        self.keys@
    }
}

impl DependencySet {
    #[verifier::type_invariant]
    spec fn keys_are_unique(self) -> bool {
        self.keys@.no_duplicates()
    }

    pub fn new() -> (s: DependencySet)
        ensures
            s@ == Seq::<DatabaseKey>::empty(),
    {
        DependencySet { keys: Vec::new() }
    }

    pub fn len(&self) -> (n: usize)
        ensures
            n == self@.len(),
            self@.no_duplicates(),
    {
        proof {
            use_type_invariant(self);
        }
        self.keys.len()
    }

    pub fn is_empty(&self) -> (b: bool)
        ensures
            b == (self@.len() == 0),
    {
        self.keys.len() == 0
    }

    /// The key that was read as number `i`.
    pub fn get(&self, i: usize) -> (k: DatabaseKey)
        requires
            i < self@.len(),
        ensures
            k == self@[i as int],
    {
        self.keys[i]
    }

    pub fn contains(&self, key: DatabaseKey) -> (b: bool)
        ensures
            b == self@.contains(key),
    {
        let mut i: usize = 0;
        while i < self.keys.len()
            invariant
                i <= self.keys.len(),
                forall|j: int| 0 <= j < i ==> self.keys@[j] != key,
            decreases self.keys.len() - i,
        {
            if self.keys[i] == key {
                return true;
            }
            i = i + 1;
        }
        false
    }

    /// Records a read of `key`. A key that was read before keeps its place;
    /// a new one goes to the end. Returns whether the key was new.
    pub fn insert(&mut self, key: DatabaseKey) -> (inserted: bool)
        ensures
            inserted == !old(self)@.contains(key),
            inserted ==> final(self)@ == old(self)@.push(key),
            !inserted ==> final(self)@ == old(self)@,
            final(self)@.no_duplicates(),
    {
        proof {
            use_type_invariant(&*self);
        }
        if self.contains(key) {
            false
        } else {
            let ghost before = self.keys@;
            let mut keys = self.keys.clone();
            keys.push(key);
            proof {
                assert(keys@ == before.push(key));
                assert forall|i: int, j: int|
                    0 <= i < keys@.len() && 0 <= j < keys@.len() && i != j implies keys@[i]
                    != keys@[j] by {
                    if i < before.len() && j < before.len() {
                        assert(before[i] != before[j]);
                    } else if i < before.len() {
                        assert(before.contains(before[i]));
                    } else {
                        assert(before.contains(before[j]));
                    }
                }
            }
            self.keys = keys;
            true
        }
    }

    /// The keys in the order in which they were read.
    pub fn to_vec(&self) -> (v: Vec<DatabaseKey>)
        ensures
            v@ == self@,
            v@.no_duplicates(),
    {
        proof {
            use_type_invariant(self);
        }
        self.keys.clone()
    }
}

} // verus!
