//! The core-local timer: the compare values that schedule the next timer interrupt.
use vstd::prelude::*;

verus! {

/// Length of one preemption tick in timer cycles (one second at 10 MHz).
pub const TIMER_DURATION: u64 = 10_000_000;

/// The compare value that fires the next tick: one tick after `mtime`,
/// wrapping as the 64-bit counter does.
pub open spec fn next_time_cmp(mtime: u64) -> u64 {
    ((mtime as nat + TIMER_DURATION as nat) % 0x1_0000_0000_0000_0000) as u64
}

/// The compare value to write when arming the timer at time `mtime`.
pub fn set_time_cmp(mtime: u64) -> (r: u64)
    ensures
        r == next_time_cmp(mtime),
{
    mtime.wrapping_add(TIMER_DURATION)
}

/// The compare value written at boot: no timer interrupt until one is armed.
pub fn init() -> (r: u64)
    ensures
        r == u64::MAX,
{
    u64::MAX
}

} // verus!
