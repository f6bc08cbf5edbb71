//! The failures that the data-access layer reports.
use vstd::prelude::*;

verus! {

/// A typed failure that callers can match on.
#[derive(Debug, Clone, PartialEq, Eq)]
pub enum DBError {
    /// A transport-level failure of the store, with its message.
    Surreal(String),
    /// A statement inside a response reported an error; the message is kept verbatim.
    QueryResponse(String),
    /// The shared handle was asked for before initialization finished.
    NotInitialized,
    /// A second initialization was attempted.
    AlreadyInitialized,
    /// A point lookup found no record.
    NotFound,
    /// A write succeeded but returned nothing; names the operation.
    EmptyResult(&'static str),
    /// A field or table name failed the identifier filter.
    InvalidIdentifier(String),
    /// A payload did not have the shape a model must have.
    InvalidModel(String),
}

} // verus!
