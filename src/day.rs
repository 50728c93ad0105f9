use vstd::prelude::*;

verus! {

/// Length of one distribution window, in seconds.
pub const DAY_IN_SECONDS: i64 = 86400;

/// The window index of a timestamp: the timestamp divided by the window
/// length, truncated toward zero.
pub open spec fn day_of(timestamp: int) -> int {
    if timestamp >= 0 {
        timestamp / (DAY_IN_SECONDS as int)
    } else {
        -((-timestamp) / (DAY_IN_SECONDS as int))
    }
}

/// The window that `timestamp` falls in.
pub fn day_id_for(timestamp: i64) -> (r: i64)
    ensures
        r == day_of(timestamp as int),
        r as int * DAY_IN_SECONDS <= timestamp || timestamp < 0,
        i64::MIN / DAY_IN_SECONDS <= r <= i64::MAX / DAY_IN_SECONDS,
{
    timestamp / DAY_IN_SECONDS
}

} // verus!
