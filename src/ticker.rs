use vstd::prelude::*;

verus! {

/// Default time between two ticks, in milliseconds.
pub const TICK_INTERVAL_MS: u64 = 200;

/// How long the input side may wait for a key before the next tick is due,
/// given the time since the last tick. The budget runs on the wall clock: a
/// key press does not restart it.
pub fn poll_budget(interval_ms: u64, since_tick_ms: u64) -> (r: u64)
    ensures
        since_tick_ms >= interval_ms ==> r == 0,
        since_tick_ms < interval_ms ==> r + since_tick_ms == interval_ms,
{
    if since_tick_ms >= interval_ms {
        0
    } else {
        interval_ms - since_tick_ms
    }
}

/// Whether a tick is due: the whole interval has passed since the last one.
pub fn tick_due(interval_ms: u64, since_tick_ms: u64) -> (r: bool)
    ensures
        r == (since_tick_ms >= interval_ms),
{
    since_tick_ms >= interval_ms
}

} // verus!
