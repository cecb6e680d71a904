//! One tagged error type for the whole synchronizer, so callers can
//! pattern-match policy — skip the item, treat as empty, or abort the
//! run — without inspecting error text.

use vstd::prelude::*;

verus! {

/// Everything that can go wrong during a sync run, by policy class.
#[derive(Clone, Debug)]
pub enum SyncError {
    /// A transport-level failure (timeout, reset): counted against the
    /// error ceiling, the current item is skipped, the batch continues.
    Transient(String),
    /// The provider answered but without the expected marker field:
    /// treated as "no data for this entity", not as an error.
    SoftEmpty,
    /// A field that could not be coerced even to a sentinel; the row is
    /// dropped, the rest of the payload is still processed.
    Parse { field: String, value: String },
    /// The natural key already exists; resolved via the registry cache.
    Duplicate,
    /// A store connection or schema failure: fatal, aborts the run.
    StoreFatal(String),
    /// The cumulative error ceiling was exceeded; carries the number of
    /// errors recorded when the circuit opened.
    CircuitOpen(u32),
}

impl SyncError {
    /// Should the orchestrator abort the whole run on this error?
    pub fn is_fatal(&self) -> (r: bool)
        ensures
            r == (self is StoreFatal || self is CircuitOpen),
    {
        match self {
            SyncError::StoreFatal(_) => true,
            SyncError::CircuitOpen(_) => true,
            _ => false,
        }
    }
}

} // verus!
