//! Timer arithmetic over the System Timer.
//!
//! The System Timer peripheral provides four 32-bit timer channels and a
//! single 64-bit free running counter. They run at 1 MHz, each count/tick
//! represents a microsecond. The GPU uses timer channels 0 and 2, so only
//! channels 1 and 3 are exposed.
use vstd::prelude::*;
use crate::time::{Hertz, Instant};

verus! {

/// Frequency of the System Timer, in Hertz.
pub const CLOCK_FREQ_HZ: u32 = 1_000_000;

/// Counter ticks between two events of a periodic timer started at
/// `timeout`.
pub fn timer_ticks(timeout: Hertz) -> (r: u32)
    requires
        timeout.0 != 0,
    ensures
        r == CLOCK_FREQ_HZ / timeout.0,
{
    CLOCK_FREQ_HZ / timeout.0
}

/// The compare value for the next event: the timers compare against the
/// lower 32 bits of the counter, so the sum wraps.
pub fn compare_value(counter_lo: u32, ticks: u32) -> (r: u32)
    ensures
        r == (counter_lo + ticks) % 0x1_0000_0000,
{
    counter_lo.wrapping_add(ticks)
}

/// The 64-bit counter value from its high and low words.
pub fn sys_counter_value(hi: u32, lo: u32) -> (r: u64)
    ensures
        r == hi * 0x1_0000_0000 + lo,
{
    let r = ((hi as u64) << 32u64) | (lo as u64);
    assert(r == hi * 0x1_0000_0000 + lo) by (bit_vector)
        requires
            r == ((hi as u64) << 32u64) | (lo as u64),
    ;
    r
}

/// The counter value from two reads: `hi` and `lo` first, then the high word
/// read again as `hi_check`. If the high word changed in between, the words
/// read after it (`hi_retry`, `lo_retry`) are used.
pub fn sys_counter_reading(hi: u32, lo: u32, hi_check: u32, hi_retry: u32, lo_retry: u32) -> (r: u64)
    ensures
        hi == hi_check ==> r == hi * 0x1_0000_0000 + lo,
        hi != hi_check ==> r == hi_retry * 0x1_0000_0000 + lo_retry,
{
    if hi != hi_check {
        sys_counter_value(hi_retry, lo_retry)
    } else {
        sys_counter_value(hi, lo)
    }
}

/// The instant of a counter value in microseconds, in whole milliseconds.
pub fn instant_from_micros(us: u64) -> (r: Instant)
    requires
        us <= i64::MAX,
    ensures
        r.millis == us / 1000,
{
    Instant::from_millis(us as i64 / 1000)
}

/// The counter value a delay of `us` microseconds from `now` waits past
/// (wrapping at 2^64).
pub fn delay_deadline(now: u64, us: u32) -> (r: u64)
    ensures
        r == (now + us) % 0x1_0000_0000_0000_0000,
{
    now.wrapping_add(us as u64)
}

/// Whether a delay with deadline `end` is over at counter value `now`.
pub fn deadline_passed(now: u64, end: u64) -> (r: bool)
    ensures
        r == (now > end),
{
    now > end
}

/// A delay in milliseconds as microseconds.
pub fn ms_to_us(ms: u32) -> (r: u32)
    requires
        ms * 1000 <= u32::MAX,
    ensures
        r == ms * 1000,
{
    ms * 1_000
}

} // verus!
