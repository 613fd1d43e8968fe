//! Conversions of the `time` register and the next timer deadline.

use vstd::prelude::*;
use crate::config::CLOCK_FREQ;

verus! {

/// Timer interrupts per second.
pub const TICKS_PER_SEC: usize = 100;

/// Milliseconds per second.
pub const MSEC_PER_SEC: usize = 1000;

/// Microseconds per second.
pub const MICROSEC_PER_SEC: usize = 1000000;

/// The time in milliseconds of `time` clock cycles.
pub open spec fn time_to_ms(time: int) -> int {
    time / (CLOCK_FREQ / MSEC_PER_SEC) as int
}

/// The time in microseconds of `time` clock cycles (whole cycles per
/// microsecond, rounded down).
pub open spec fn time_to_us(time: int) -> int {
    time / (CLOCK_FREQ / MICROSEC_PER_SEC) as int
}

/// The `time` register's value converted to milliseconds.
pub fn get_time_ms(time: usize) -> (r: usize)
    ensures
        r == time_to_ms(time as int),
{
    time / (CLOCK_FREQ / MSEC_PER_SEC)
}

/// The `time` register's value converted to microseconds.
pub fn get_time_us(time: usize) -> (r: usize)
    ensures
        r == time_to_us(time as int),
{
    time / (CLOCK_FREQ / MICROSEC_PER_SEC)
}

/// The deadline of the next timer interrupt when the `time` register reads
/// `now`: one tick, a hundredth of a second, later.
pub fn set_next_trigger(now: usize) -> (r: usize)
    requires
        now + CLOCK_FREQ / TICKS_PER_SEC <= usize::MAX,
    ensures
        r == now + CLOCK_FREQ / TICKS_PER_SEC,
{
    now + CLOCK_FREQ / TICKS_PER_SEC
}

/// The clock runs at 1250000 cycles per second, so `time` cycles are the
/// whole milliseconds `ms` with `1250 * ms <= time < 1250 * (ms + 1)`, and
/// as many whole microseconds as cycles; the next timer deadline lies 12500
/// cycles (a hundredth of a second) ahead.
pub proof fn clock_conversions(time: int)
    requires
        time >= 0,
    ensures
        1250 * time_to_ms(time) <= time < 1250 * (time_to_ms(time) + 1),
        time_to_us(time) == time,
        CLOCK_FREQ / TICKS_PER_SEC == 12500,
{
    assert((CLOCK_FREQ / MSEC_PER_SEC) as int == 1250);
    assert((CLOCK_FREQ / MICROSEC_PER_SEC) as int == 1);
    assert(1250 * (time / 1250) <= time < 1250 * (time / 1250 + 1)) by (nonlinear_arith)
        requires
            time >= 0,
    ;
    assert(time / 1 == time) by (nonlinear_arith);
}

} // verus!
