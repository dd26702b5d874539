//! A small persistent key-value store with JSON-typed values.
//!
//! Values are held as canonical JSON documents; the backing file is a
//! SQLite database with two independent tables, one for key/value
//! records and one for cached command output.

pub mod args;
pub mod cached;
pub mod cycle;
pub mod json;
pub mod store;
pub mod system;

use vstd::prelude::*;

verus! {

/// Errors surfaced by the store operations.
#[derive(Debug, PartialEq, Eq)]
pub enum StoreError {
    /// The backing file could not be created or opened.
    Open,
    /// A read or write against an open store failed.
    Query,
    /// Captured command output was not valid UTF-8.
    Utf8,
    /// A command failed and no cached output exists for it.
    CacheMiss,
}

} // verus!
