//! Fuzzy symbol search for the header's search bar.

use vstd::prelude::*;

verus! {

/// Rows asked for per search; the server clamps `limit` to `[1, 50]`.
pub const SEARCH_LIMIT: i32 = 12;

} // verus!
