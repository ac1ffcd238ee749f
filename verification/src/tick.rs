//! The pace of the dashboard: how long to wait for input, when to redraw,
//! and how often the panes fetch fresh data.  Times are in nanoseconds.

use vstd::prelude::*;

verus! {

/// The time between two redraws without input: one second.
pub const TICK_RATE: u128 = 1_000_000_000;

/// The time a worker sleeps between two refreshes of its pane: three
/// seconds.
pub const REFRESH_INTERVAL: u128 = 3_000_000_000;

/// How long to wait for input when `elapsed` has passed since the last
/// tick: what is left of the tick, and no time at all where the tick is
/// over.
pub open spec fn time_left(tick_rate: u128, elapsed: u128) -> u128 {
    if elapsed >= tick_rate {
        0
    } else {
        (tick_rate - elapsed) as u128
    }
}

/// How long to wait for input.
pub fn poll_timeout(tick_rate: u128, elapsed: u128) -> (timeout: u128)
    ensures
        timeout == time_left(tick_rate, elapsed),
{
    if elapsed >= tick_rate {
        0
    } else {
        tick_rate - elapsed
    }
}

/// Whether a tick is over, so that the screen is drawn anew.
pub fn tick_due(tick_rate: u128, elapsed: u128) -> (due: bool)
    ensures
        due == (elapsed >= tick_rate),
{
    elapsed >= tick_rate
}

} // verus!
