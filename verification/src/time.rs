//! UTC day arithmetic over Unix timestamps.
//!
//! The daily spending window is the UTC day a timestamp falls in: day
//! boundaries are exact multiples of 86400 seconds.  Timestamps are
//! nonnegative Unix seconds.

use vstd::prelude::*;

verus! {

/// The UTC day number a Unix timestamp falls in.
pub open spec fn day_index(t: int) -> int {
    t / 86400
}

/// Whether two timestamps fall in the same UTC day.
pub open spec fn same_day(a: int, b: int) -> bool {
    day_index(a) == day_index(b)
}

/// Whether two nonnegative Unix timestamps fall in the same UTC day.
pub fn same_utc_day(a: i64, b: i64) -> (r: bool)
    requires
        0 <= a,
        0 <= b,
    ensures
        r == same_day(a as int, b as int),
{
    (a as u64) / 86400 == (b as u64) / 86400
}

} // verus!
