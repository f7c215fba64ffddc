//! The system clock, read through `chrono`.
use vstd::prelude::*;

verus! {

/// Every timestamp `chrono` can represent lies below this bound (2^43 seconds, beyond year 262000).
pub const NOW_BOUND: i64 = 8_796_093_022_208;

/// The current time in Unix seconds.
/// Trusted: `chrono::Utc::now().timestamp()`. In `chrono`'s source the value comes from the
/// system clock's seconds since the epoch (it panics on a clock set before 1970 or outside the
/// representable range), so it is at least 0 and below the largest representable date, which
/// lies under `NOW_BOUND`. Which value it is depends on the time of the call and is not stated.
#[verifier::external_body]
pub(crate) fn unix_now() -> (t: i64)
    ensures
        0 <= t < NOW_BOUND,
{
    chrono::Utc::now().timestamp()
}

} // verus!
