//! LEDs that blink at a given frequency.
//!
//! An LED blinking at `freq` Hz is toggled twice per cycle, so the time
//! between toggles is the period of `2 * freq` Hz, in ticks of the timer.

use vstd::prelude::*;

use embassy_time::Duration;

verus! {

/// The tick rate of the timer, in Hz (the rate that `embassy-time` is
/// built with here).
pub const TICK_HZ: u64 = 1_000_000;

/// The ticks of one period of `hz` Hz, rounded to the nearest tick, and
/// never less than one tick.
pub open spec fn ticks_for_hz(hz: int) -> int {
    if hz >= TICK_HZ {
        1
    } else {
        (TICK_HZ + hz / 2) / hz
    }
}

/// `embassy_time::Duration::from_hz`, read back with `as_ticks`: one tick
/// at or above the tick rate, else the tick rate plus half of `hz`, divided
/// by `hz`. With `hz` zero the division panics, which `requires` rules out.
#[verifier::external_body]
fn period_ticks_from_hz(hz: u64) -> (ticks: u64)
    requires
        hz > 0,
    ensures
        ticks == ticks_for_hz(hz as int),
{
    Duration::from_hz(hz).as_ticks()
}

/// The ticks between two toggles of an LED that blinks `freq` times per
/// second.
pub fn blink_period_ticks(freq: u64) -> (ticks: u64)
    requires
        0 < freq <= u64::MAX / 2,
    ensures
        ticks == ticks_for_hz(2 * freq),
{
    period_ticks_from_hz(freq * 2)
}

/// Below the tick rate a period is the tick count nearest to the exact
/// one: `ticks * hz` is within half of `hz` of the tick rate.
pub proof fn period_is_rounded_to_nearest(hz: int)
    requires
        0 < hz < TICK_HZ,
    ensures
        ticks_for_hz(hz) >= 1,
        ticks_for_hz(hz) * hz <= TICK_HZ + hz / 2 < (ticks_for_hz(hz) + 1) * hz,
{
    let t = ticks_for_hz(hz);
    assert(t * hz <= 1_000_000 + hz / 2 < (t + 1) * hz && t >= 1) by (nonlinear_arith)
        requires
            0 < hz < 1_000_000,
            t == (1_000_000 + hz / 2) / hz,
    ;
}

} // verus!
