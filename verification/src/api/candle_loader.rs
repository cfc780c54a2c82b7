//! Historical daily bars: which time range each fetch asks for.

use vstd::prelude::*;

verus! {

/// Days of history per fetch, initial and backfill alike (about 1,250
/// trading days, below the server's row limit).
pub const LOOKBACK_DAYS: i64 = 1825;

/// Seconds in a day.
pub const SECS_PER_DAY: i64 = 86_400;

/// Row limit sent with each fetch.
pub const BAR_LIMIT: i32 = 5000;

/// Request window `[from, to)` of five years of bars ending at `to`
/// (Unix seconds).
pub fn lookback_window(to: i64) -> (r: (i64, i64))
    requires
        to >= i64::MIN + LOOKBACK_DAYS * SECS_PER_DAY,
    ensures
        r.1 == to,
        r.0 == to - LOOKBACK_DAYS * SECS_PER_DAY,
{
    (to - LOOKBACK_DAYS * SECS_PER_DAY, to)
}

} // verus!
