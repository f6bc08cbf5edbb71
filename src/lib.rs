//! A verified data-access layer over an embedded document/graph store.
//!
//! The library decides and the caller performs: it builds every statement
//! with named bindings, reads the outcomes, and runs store initialization and
//! transactions as state machines whose actions the caller carries out
//! against the store.
use vstd::prelude::*;

pub mod bulk;
pub mod conn;
pub mod doc;
pub mod domain;
pub mod error;
pub mod graph;
pub mod id;
pub mod init;
pub mod lock;
pub mod naming;
pub mod query;
pub mod repo;
pub mod schema;
pub mod stmt;
pub mod text;
pub mod tx;

verus! {

} // verus!
