use vstd::prelude::*;

verus! {

/// Sentinel magnitude for a forced win; its negation marks a forced loss.
pub const MATE_VALUE: i64 = 1000000;

/// Largest search depth the engine accepts; recursion depth equals search
/// depth, so this bounds stack use.
pub const MAX_SEARCH_DEPTH: usize = 64;

} // verus!
