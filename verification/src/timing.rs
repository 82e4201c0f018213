//! Ages and intervals.
//!
//! Every instruction is handed one current time. Differences of times are
//! taken as integers, so that no pair of timestamps wraps.

use vstd::prelude::*;

verus! {

/// Whether what was observed at `observed_at` is at most `window` seconds old
/// at `now`. An age of exactly `window` is still accepted.
pub open spec fn within_window(now: i64, observed_at: i64, window: i64) -> bool {
    now - observed_at <= window
}

/// Whether at least `interval` seconds have passed at `now` since `last`.
pub open spec fn interval_elapsed(now: i64, last: i64, interval: i64) -> bool {
    now - last >= interval
}

/// The seconds from `since` to `now`, negative where `now` is the earlier.
pub fn seconds_between(now: i64, since: i64) -> (r: i128)
    ensures
        r == now - since,
{
    (now as i128) - (since as i128)
}

/// Whether what was observed at `observed_at` is at most `window` seconds old
/// at `now`.
pub fn is_within_window(now: i64, observed_at: i64, window: i64) -> (r: bool)
    ensures
        r == within_window(now, observed_at, window),
{
    seconds_between(now, observed_at) <= window as i128
}

/// Whether at least `interval` seconds have passed at `now` since `last`.
pub fn has_interval_elapsed(now: i64, last: i64, interval: i64) -> (r: bool)
    ensures
        r == interval_elapsed(now, last, interval),
{
    seconds_between(now, last) >= interval as i128
}

/// The window is closed at its far end: an observation is accepted at every
/// age up to the window itself, and refused from one second more.
pub proof fn lemma_window_is_inclusive(now: i64, observed_at: i64, window: i64)
    ensures
        now - observed_at == window ==> within_window(now, observed_at, window),
        now - observed_at == window + 1 ==> !within_window(now, observed_at, window),
        within_window(now, observed_at, window) <==> now - observed_at <= window,
{
}

} // verus!
