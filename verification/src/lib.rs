//! The derived-query slot of a demand-driven incremental computation engine.
//!
//! A slot memoizes the result of one query for one key. It remembers the
//! revision at which the result was last verified and last changed, the
//! inputs that the query read, and it knows how to revalidate itself when an
//! input may have changed.
//!
//! The rules of the slot are stated on plain values in [`memo`] and
//! [`state`]; [`slot`] puts them behind a reader/writer lock and drives them
//! against a database.

mod cell;
pub mod dependency;
pub mod durability;
pub mod laws;
pub mod lru;
pub mod memo;
pub mod query;
pub mod revision;
pub mod runtime;
pub mod slot;
pub mod state;
pub mod sweep;
pub mod waiting;

pub use dependency::{DatabaseKey, DependencySet};
pub use durability::Durability;
pub use lru::LruIndex;
pub use memo::{ChangeProbe, Memo, MemoInputs};
pub use query::{AlwaysMemoizeValue, MemoizationPolicy, NeverMemoizeValue, QueryFunction};
pub use revision::Revision;
pub use runtime::{
    ComputedQueryResult, CycleDetected, Database, Event, EventKind, RuntimeId, StampedValue,
};
pub use slot::{ChangePlan, ProbeState, ReadError, Slot};
pub use state::{PlaceholderLost, QueryState, TableEntry};
pub use sweep::{DiscardIf, DiscardWhat, IllegalStrategy, SweepStrategy};
