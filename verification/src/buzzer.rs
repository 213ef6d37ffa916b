//! Timing of the audible alarm.
//!
//! The buzzer is driven by a square wave: the pin is held high for one delay
//! and low for the next, cycle after cycle. This module works out the delay
//! and the number of cycles; toggling the pin is up to the caller.

use vstd::prelude::*;

verus! {

/// Number of cycles of the fixed alarm pattern.
pub const ALARM_CYCLES: u32 = 250;

/// Half period of the fixed alarm pattern, in milliseconds.
pub const ALARM_DELAY_MS: u32 = 10;

/// Returns the delay in milliseconds that the caller uses as the half period
/// of a tone of the given frequency: 1000 divided by the frequency, rounded
/// down.
pub fn frequency_to_delay(frequency_hz: &u32) -> (delay_ms: u32)
    requires
        *frequency_hz != 0,
    ensures
        delay_ms == 1000int / *frequency_hz as int,
{
    1000 / *frequency_hz
}

/// Returns the number of cycles that fill `duration_ms` milliseconds at the
/// given frequency: the duration divided by two delays, rounded down.
///
/// Above 1000 Hz the delay would round down to nothing, so such frequencies
/// are excluded.
pub fn duration_to_range(duration_ms: u32, frequency_hz: &u32) -> (cycles: i32)
    requires
        0 < *frequency_hz <= 1000,
    ensures
        cycles == duration_ms as int / (2 * (1000int / *frequency_hz as int)),
        0 <= cycles * (2 * (1000int / *frequency_hz as int)) <= duration_ms,
{
    let delay: u32 = frequency_to_delay(frequency_hz);
    assert(1 <= delay <= 1000) by (nonlinear_arith)
        requires
            delay == 1000int / *frequency_hz as int,
            0 < *frequency_hz <= 1000,
    ;
    let max_range: u32 = duration_ms / (delay * 2);
    assert(max_range <= 0x7fff_ffff && 0 <= max_range * (2 * delay) <= duration_ms)
        by (nonlinear_arith)
        requires
            max_range == duration_ms as int / (delay * 2),
            delay >= 1,
            duration_ms <= 0xffff_ffff,
    ;
    max_range as i32
}

} // verus!
