//! When an event counts as upcoming, and how long to wait between two
//! submissions.

use vstd::prelude::*;

verus! {

/// Seconds to wait after each submission before the next event is looked at.
pub const PACING_SECONDS: u64 = 5;

/// Whole seconds in `millis` milliseconds, rounded toward zero.
pub open spec fn seconds_of_millis(millis: int) -> int {
    if millis >= 0 {
        millis / 1000
    } else {
        -((-millis) / 1000)
    }
}

/// An event that starts at `start_millis` is upcoming at the clock reading
/// `now` (in seconds) when its start, in whole seconds, lies strictly after
/// `now`.
pub open spec fn upcoming(start_millis: int, now: int) -> bool {
    seconds_of_millis(start_millis) > now
}

/// The start of an event in whole seconds since the epoch, given in
/// milliseconds since the epoch.
pub fn event_seconds(start_millis: i64) -> (seconds: i64)
    ensures
        seconds == seconds_of_millis(start_millis as int),
{
    start_millis / 1000
}

/// Whether an event that starts at `start_millis` is still ahead at `now`.
pub fn is_upcoming(start_millis: i64, now: i64) -> (ahead: bool)
    ensures
        ahead == upcoming(start_millis as int, now as int),
{
    event_seconds(start_millis) > now
}

} // verus!
