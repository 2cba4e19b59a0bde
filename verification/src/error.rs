//! The failures that a write can end in.
use vstd::prelude::*;

verus! {

/// The primary result code with which SQLite reports that a lock could not be
/// taken within the busy timeout.
pub const SQLITE_BUSY: i32 = 5;

/// What a failed call into the store looked like, reduced to the facts that
/// the taxonomy below is built on.
#[derive(Clone, Copy, Debug, PartialEq, Eq)]
pub enum SqlFailure {
    /// The SQLite engine refused, with this extended result code.
    Engine { extended_code: i32 },
    /// A query that has to produce a row produced none.
    NoRows,
    /// The binding layer failed before or after the engine was reached.
    Other,
}

/// Why a write did not happen.
#[derive(Clone, Copy, Debug, PartialEq, Eq)]
pub enum StoreError {
    /// The write lock could not be taken within the configured wait. The
    /// caller may try again; the core never does so by itself.
    Busy,
    /// The user row that the post must reference was not there.
    NotFound,
    /// The coordinator had begun to shut down when the write was submitted.
    Closed,
    /// The coordinator's queue was full when the write was submitted.
    Overloaded,
    /// Any other failure of the store; `code` is the engine's extended
    /// result code where the engine gave one.
    Store { code: Option<i32> },
}

/// The low eight bits of an extended result code: the broad category that
/// SQLite calls the primary result code.
pub open spec fn primary_code(extended_code: i32) -> i32 {
    extended_code & 0xff
}

/// The place of a store failure in the taxonomy.
pub open spec fn classified(failure: SqlFailure) -> StoreError {
    match failure {
        SqlFailure::Engine { extended_code } => if primary_code(extended_code) == SQLITE_BUSY {
            StoreError::Busy
        } else {
            StoreError::Store { code: Some(extended_code) }
        },
        SqlFailure::NoRows => StoreError::NotFound,
        SqlFailure::Other => StoreError::Store { code: None },
    }
}

impl StoreError {
    /// True of the errors that come from the store itself, as opposed to
    /// those with which the coordinator turns a request away. A busy engine
    /// is always `Busy`: the catch-all never carries a busy code.
    pub open spec fn from_store(self) -> bool {
        match self {
            StoreError::Busy => true,
            StoreError::NotFound => true,
            StoreError::Store { code: Some(extended_code) } => primary_code(extended_code)
                != SQLITE_BUSY,
            StoreError::Store { code: None } => true,
            _ => false,
        }
    }

    /// Whether the caller may expect a later attempt to succeed.
    pub fn is_retryable(&self) -> (retryable: bool)
        ensures
            retryable == (*self is Busy || *self is Overloaded),
    {
        match self {
            StoreError::Busy => true,
            StoreError::Overloaded => true,
            _ => false,
        }
    }
}

/// Sorts a store failure into the taxonomy: a busy engine is `Busy` whatever
/// the extended bits say, a missing row is `NotFound`, everything else is
/// the catch-all.
pub fn classify(failure: SqlFailure) -> (error: StoreError)
    ensures
        error == classified(failure),
        error.from_store(),
{
    match failure {
        SqlFailure::Engine { extended_code } => {
            if extended_code & 0xff == SQLITE_BUSY {
                StoreError::Busy
            } else {
                StoreError::Store { code: Some(extended_code) }
            }
        },
        SqlFailure::NoRows => StoreError::NotFound,
        SqlFailure::Other => StoreError::Store { code: None },
    }
}

} // verus!
