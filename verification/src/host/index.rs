//! Lists indexed by identifiers.
use vstd::prelude::*;

verus! {

/// A list whose positions are identifiers: position `i` holds the item
/// with identifier `i`.
#[derive(Debug, PartialEq, Eq)]
pub struct IndexVec<T> {
    pub raw: Vec<T>,
}

} // verus!
