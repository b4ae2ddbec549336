use crate::dependency::{DatabaseKey, DependencySet};
use crate::durability::Durability;
use crate::revision::Revision;
use crate::runtime::{
    reports_first_change_at, reports_last_changed, reports_unchanged_prefix, ComputedQueryResult,
    Database, StampedValue,
};
use std::sync::Arc;
use vstd::prelude::*;

verus! {

/// What is known of the inputs that a memoized value was computed from.
#[derive(Debug)]
pub enum MemoInputs {
    /// The inputs, all of them, and at least one.
    TrackedInputs { inputs: Arc<DependencySet> },
    /// The query read no input.
    NoInputs,
    /// The query read something that cannot be tracked.
    Untracked,
}

impl MemoInputs {
    /// `self` is what a memo records for a query that read `dependencies`.
    pub open spec fn captures(self, dependencies: Option<DependencySet>) -> bool {
        match dependencies {
            None => self is Untracked,
            Some(set) => if set@.len() == 0 {
                self is NoInputs
            } else {
                self matches MemoInputs::TrackedInputs { inputs } && *inputs == set
            },
        }
    }

    pub fn from_dependencies(dependencies: Option<DependencySet>) -> (inputs: MemoInputs)
        ensures
            inputs.captures(dependencies),
    {
        match dependencies {
            None => MemoInputs::Untracked,
            Some(set) => {
                if set.is_empty() {
                    MemoInputs::NoInputs
                } else {
                    MemoInputs::TrackedInputs { inputs: Arc::new(set) }
                }
            },
        }
    }
}

/// `first` is what a walk over `inputs` comes to: the number of the first
/// input that answers that it may have changed after `since`, or `None` if
/// every input answers that it is unchanged.
pub open spec fn walks<DB: Database>(
    db: &DB,
    inputs: Seq<DatabaseKey>,
    since: Revision,
    first: Option<usize>,
) -> bool {
    match first {
        Some(i) => reports_first_change_at(db, inputs, since, i as int),
        None => reports_unchanged_prefix(db, inputs, since, inputs.len() as int),
    }
}

/// Asks the inputs, in their order, whether they may have changed after
/// `since`, and stops at the first that may. Returns its number, or `None`
/// if every input answered that it is unchanged.
pub fn first_changed_input<DB: Database>(db: &DB, inputs: &DependencySet, since: Revision) -> (r:
    Option<usize>)
    ensures
        walks(db, inputs@, since, r),
{
    let n = inputs.len();
    let mut i: usize = 0;
    while i < n
        invariant
            i <= n,
            n == inputs@.len(),
            reports_unchanged_prefix(db, inputs@, since, i as int),
        decreases n - i,
    {
        let input: DatabaseKey = inputs.get(i);
        if db.maybe_changed_since(&input, since) {
            return Some(i);
        }
        i = i + 1;
    }
    None
}

/// What is to be done to learn whether a memoized value may have changed.
#[derive(Debug)]
pub enum ChangeProbe {
    /// Nothing: this is the answer.
    Known(bool),
    /// Nothing: the value cannot have changed, and the memo is to be taken
    /// as verified.
    Unchanged,
    /// The value is to be read: its inputs are walked on the way, and it is
    /// computed again if one of them changed.
    Reread,
    /// These inputs are to be walked.
    Walk(Arc<DependencySet>),
}

/// The remembered outcome of one execution of a query.
#[derive(Debug)]
pub struct Memo<V> {
    /// The value, unless it was not kept or was discarded since.
    pub value: Option<V>,
    /// The last revision in which the inputs were found unchanged.
    pub verified_at: Revision,
    /// The last revision in which the value was found to differ.
    pub changed_at: Revision,
    /// The least durability among the inputs.
    pub durability: Durability,
    pub inputs: MemoInputs,
}

impl<V> Memo<V> {
    /// The value did not change after it was last verified, and a tracked
    /// set of inputs is not empty.
    pub open spec fn well_formed(self) -> bool {
        &&& self.changed_at@ <= self.verified_at@
        &&& self.inputs matches MemoInputs::TrackedInputs { inputs } ==> inputs@.len() > 0
    }

    /// The memo is well formed and no younger than the revision `now`.
    pub open spec fn valid_at(self, now: Revision) -> bool {
        self.well_formed() && self.verified_at@ <= now@
    }

    /// The memo was verified in the revision `now`.
    pub open spec fn is_current(self, now: Revision) -> bool {
        self.verified_at == now
    }

    /// The memo after its inputs were found unchanged in the revision `now`.
    pub open spec fn verified_in(self, now: Revision) -> Memo<V> {
        Memo { verified_at: now, ..self }
    }

    /// The memo after its value was discarded.
    pub open spec fn without_value(self) -> Memo<V> {
        Memo { value: None, ..self }
    }

    /// No input that the memo may depend on was written after the memo was
    /// last verified, if `last_changed` is when such an input last was.
    pub open spec fn durability_holds(self, last_changed: Revision) -> bool {
        last_changed@ <= self.verified_at@
    }

    /// Whether the value of the memo can be taken as still good.
    /// `durable` says whether the durability of the memo vouches for it,
    /// `input_changed` whether one of its tracked inputs may have changed.
    pub open spec fn validates(self, durable: bool, input_changed: bool) -> bool {
        self.value is Some && (durable || match self.inputs {
            MemoInputs::Untracked => false,
            MemoInputs::NoInputs => true,
            MemoInputs::TrackedInputs { .. } => !input_changed,
        })
    }

    /// `validated` is what a validation against `db` comes to: the database
    /// is asked when an input of the memo's durability last changed; only if
    /// that was after the memo was verified are the tracked inputs asked, in
    /// their order and as far as the first that may have changed.
    pub open spec fn validation_outcome<DB: Database>(self, db: &DB, validated: bool) -> bool {
        if self.value is None {
            !validated
        } else {
            exists|last_changed: Revision| #[trigger]
                reports_last_changed(db, self.durability, last_changed) && if self.durability_holds(
                    last_changed,
                ) {
                    validated == self.validates(true, false)
                } else {
                    match self.inputs {
                        MemoInputs::TrackedInputs { inputs } => if validated {
                            reports_unchanged_prefix(
                                db,
                                inputs@,
                                self.verified_at,
                                inputs@.len() as int,
                            )
                        } else {
                            exists|i: int| reports_first_change_at(db, inputs@, self.verified_at, i)
                        },
                        _ => validated == self.validates(false, false),
                    }
                }
        }
    }

    /// What comes of a value that was computed again while this memo was
    /// the old one, if `equal` says whether the two values count as the
    /// same: the stamp of the old value, if the new one is equal and no less
    /// durable; else the stamp `changed_at` that came with the new value.
    pub open spec fn backdated(
        self,
        durability: Durability,
        changed_at: Revision,
        equal: bool,
    ) -> Revision {
        if self.allows_backdating_to(durability) && equal {
            self.changed_at
        } else {
            changed_at
        }
    }

    /// The memo holds a value, and `durability` is no lower than its own.
    pub open spec fn allows_backdating_to(self, durability: Durability) -> bool {
        self.value is Some && durability.level() >= self.durability.level()
    }

    /// What is to be done to learn whether the value may have changed after
    /// `revision`, in the revision `now`, if `durable` says whether the
    /// durability of a memo that is not current vouches for it.
    pub open spec fn change_probe(self, revision: Revision, now: Revision, durable: bool) -> ChangeProbe {
        if self.is_current(now) {
            ChangeProbe::Known(self.changed_at@ > revision@)
        } else if durable {
            ChangeProbe::Unchanged
        } else {
            match self.inputs {
                MemoInputs::Untracked => ChangeProbe::Known(true),
                MemoInputs::NoInputs => ChangeProbe::Unchanged,
                MemoInputs::TrackedInputs { inputs } => if self.value is Some {
                    ChangeProbe::Reread
                } else {
                    ChangeProbe::Walk(inputs)
                },
            }
        }
    }

    /// `probe` is what a look at the memo against `db` comes to: a memo
    /// that was verified in `now` knows the answer; of another one the
    /// database is asked whether its durability vouches for it.
    pub open spec fn change_probe_outcome<DB: Database>(
        self,
        db: &DB,
        revision: Revision,
        now: Revision,
        probe: ChangeProbe,
    ) -> bool {
        if self.is_current(now) {
            probe == self.change_probe(revision, now, true)
        } else {
            exists|last_changed: Revision| #[trigger]
                reports_last_changed(db, self.durability, last_changed) && probe
                    == self.change_probe(revision, now, self.durability_holds(last_changed))
        }
    }

    /// Whether a value that comes with `durability` may take over the stamp
    /// of this memo: the memo has to hold a value, and the new value must
    /// not be less durable. A value that became less durable is a change
    /// that those who read it have to see.
    pub fn allows_backdating(&self, durability: Durability) -> (r: bool)
        ensures
            r == self.allows_backdating_to(durability),
    {
        self.value.is_some() && durability.is_at_least(self.durability)
    }

    /// Finds out what is to be done to learn whether the value may have
    /// changed after `revision`. A memo that was verified in `revision_now`
    /// knows the answer; of another one the database is asked whether its
    /// durability vouches for it.
    pub fn probe_change<DB: Database>(&self, db: &DB, revision: Revision, revision_now: Revision) -> (r:
        ChangeProbe)
        ensures
            self.change_probe_outcome(db, revision, revision_now, r),
    {
        if self.verified_at == revision_now {
            return ChangeProbe::Known(self.changed_at.is_after(revision));
        }
        // If no input of this durability was written since, the value
        // cannot have changed: there is no need to look at the inputs.
        if self.check_durability(db) {
            return ChangeProbe::Unchanged;
        }
        match &self.inputs {
            // Not all inputs are known, so a new revision means that the
            // value has to be taken as changed.
            MemoInputs::Untracked => ChangeProbe::Known(true),
            MemoInputs::NoInputs => ChangeProbe::Unchanged,
            MemoInputs::TrackedInputs { inputs } => {
                if self.value.is_some() {
                    ChangeProbe::Reread
                } else {
                    ChangeProbe::Walk(inputs.clone())
                }
            },
        }
    }

    pub fn has_untracked_input(&self) -> (r: bool)
        ensures
            r == (self.inputs is Untracked),
    {
        match self.inputs {
            MemoInputs::Untracked => true,
            _ => false,
        }
    }

    /// True if this memo is known not to have changed based on its
    /// durability: the database reports no write to an input of that
    /// durability since the memo was verified.
    pub fn check_durability<DB: Database>(&self, db: &DB) -> (r: bool)
        ensures
            exists|last_changed: Revision| #[trigger]
                reports_last_changed(db, self.durability, last_changed) && r
                    == self.durability_holds(last_changed),
    {
        let last_changed = db.last_changed_revision(self.durability);
        assert(reports_last_changed(db, self.durability, last_changed));
        last_changed.is_at_or_before(self.verified_at)
    }
}

impl<V: Clone> Memo<V> {
    /// `stamped` is the value of the memo with the memo's stamps.
    pub open spec fn stamps(self, stamped: StampedValue<V>) -> bool {
        &&& self.value matches Some(value)
        &&& cloned(value, stamped.value)
        &&& stamped.durability == self.durability
        &&& stamped.changed_at == self.changed_at
    }

    /// `memo` and `stamped` are what a finished execution leaves: the memo
    /// to keep, verified in `now`, and the stamped value to hand out.
    pub open spec fn records(
        memo: Memo<V>,
        stamped: StampedValue<V>,
        result: ComputedQueryResult<V>,
        now: Revision,
        keep_value: bool,
    ) -> bool {
        &&& stamped.value == result.value
        &&& stamped.durability == result.durability
        &&& stamped.changed_at == result.changed_at
        &&& memo.verified_at == now
        &&& memo.changed_at == result.changed_at
        &&& memo.durability == result.durability
        &&& memo.inputs.captures(result.dependencies)
        &&& if keep_value {
            memo.value matches Some(value) && cloned(result.value, value)
        } else {
            memo.value is None
        }
    }

    /// `after` is what a validation in the revision `now` leaves of the
    /// memo, and `r` what it hands out: if the value was found to be still
    /// good, the memo is verified in `now` and its value is handed out with
    /// its stamps; else the memo stays as it is. Nothing but the revision
    /// in which the memo was verified ever changes.
    pub open spec fn validates_to(
        self,
        after: Memo<V>,
        now: Revision,
        r: Option<StampedValue<V>>,
    ) -> bool {
        match r {
            Some(stamped) => after == self.verified_in(now) && self.stamps(stamped),
            None => after == self,
        }
    }

    /// Takes the value as verified in `revision_now` and hands it out.
    pub fn mark_value_as_verified(&mut self, revision_now: Revision) -> (stamped: StampedValue<V>)
        requires
            old(self).value is Some,
        ensures
            *final(self) == old(self).verified_in(revision_now),
            old(self).stamps(stamped),
    {
        let value = match &self.value {
            Some(v) => v.clone(),
            None => unreached(),
        };
        self.verified_at = revision_now;
        StampedValue { durability: self.durability, changed_at: self.changed_at, value }
    }

    /// Finds out whether the value of the memo is still good in
    /// `revision_now`, without running the query. If it is, the memo is
    /// taken as verified in `revision_now` and the stamped value is handed
    /// out; if it is not, or there is no value, the memo stays as it is.
    pub fn validate_memoized_value<DB: Database>(&mut self, db: &DB, revision_now: Revision) -> (r:
        Option<StampedValue<V>>)
        ensures
            old(self).validation_outcome(db, r is Some),
            old(self).validates_to(*final(self), revision_now, r),
    {
        if self.value.is_none() {
            return None;
        }
        let verified_at = self.verified_at;

        let durable = self.check_durability(db);
        let ghost last_changed = choose|last_changed: Revision| #[trigger]
            reports_last_changed(db, self.durability, last_changed) && durable
                == self.durability_holds(last_changed);
        if durable {
            return Some(self.mark_value_as_verified(revision_now));
        }
        match &self.inputs {
            // A value computed from untracked inputs cannot be validated:
            // the query has to run again.
            MemoInputs::Untracked => {
                return None;
            },
            MemoInputs::NoInputs => {},
            // Ask each input whether it changed since this memo was last
            // verified (not since it last changed): a change before that
            // was looked at already and left the value as it is.
            MemoInputs::TrackedInputs { inputs } => {
                if first_changed_input(db, inputs, verified_at).is_some() {
                    return None;
                }
            },
        }
        Some(self.mark_value_as_verified(revision_now))
    }

    /// Builds the memo for a finished execution, and the stamped value that
    /// the reader gets. The memo holds a copy of the value only if `keep_value`
    /// is set.
    pub fn from_computed(result: ComputedQueryResult<V>, revision_now: Revision, keep_value: bool) -> (r: (
        Memo<V>,
        StampedValue<V>,
    ))
        ensures
            Self::records(r.0, r.1, result, revision_now, keep_value),
    {
        let value = if keep_value {
            Some(result.value.clone())
        } else {
            None
        };
        let inputs = MemoInputs::from_dependencies(result.dependencies);
        let memo = Memo {
            value,
            verified_at: revision_now,
            changed_at: result.changed_at,
            durability: result.durability,
            inputs,
        };
        let stamped = StampedValue {
            value: result.value,
            durability: result.durability,
            changed_at: result.changed_at,
        };
        (memo, stamped)
    }
}

} // verus!
