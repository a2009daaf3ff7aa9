//! The relational store.

use vstd::prelude::*;

verus! {

/// The relational store, as the statements that its operations run.
///
/// A function with a single statement returns it. A function that makes more steps returns the
/// commands in order; where a later step depends on rows that come back, a second function takes
/// those rows and returns what is to be done with them.
pub struct SqliteStore;

} // verus!
