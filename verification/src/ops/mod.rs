//! The dispatch protocol: the closed set of request variants, grouped by
//! category, and their matching response variants.

use vstd::prelude::*;

pub mod collections;
pub mod points;
pub mod query;

verus! {

/// The name of a collection.
pub type ColName = String;

} // verus!
