//! A hobby servo swept back and forth, and the PWM set-ups of the
//! single-channel exercises.
//!
//! The servo is driven at 50 Hz: with the PWM counter wrapping at
//! `SERVO_TOP` and the clock divided by `SERVO_DIVIDER`, one counter period
//! is 20 ms. A 0.5 ms pulse turns it to one end and a 2.5 ms pulse to the
//! other; it sweeps from one end to the other in one second and back in the
//! next.

use vstd::prelude::*;

use fixed::traits::ToFixed;
use fixed::types::extra::U4;
use fixed::FixedU16;

verus! {

/// The counter wrap value that gives a 50 Hz period.
pub const SERVO_TOP: u16 = 0xB71A;

/// The integer clock divider of the servo slice.
pub const SERVO_DIVIDER: i32 = 64;

/// The servo period, in microseconds.
pub const PERIOD_US: u64 = 20_000;

/// The pulse that turns the servo to 0 degrees, in microseconds.
pub const MIN_PULSE_US: u64 = 500;

/// The pulse that turns the servo to 180 degrees, in microseconds.
pub const MAX_PULSE_US: u64 = 2500;

/// The counter wrap value of the potentiometer exercise: the largest
/// reading of the 12-bit ADC.
pub const ADC_TOP: u16 = 4095;

/// Converts a whole clock divider to the 12.4 fixed-point form of the PWM
/// divider register, as `fixed`'s `ToFixed::to_fixed` into `FixedU16<U4>`
/// does, and returns its raw bits. The value is exact, with no fractional
/// part, so the bits are the divider times 16. `to_fixed` panics (with debug
/// assertions) when the value does not fit, which `requires` rules out.
#[verifier::external_body]
fn divider_bits(whole: i32) -> (bits: u16)
    requires
        0 <= whole < 4096,
    ensures
        bits == whole * 16,
{
    whole.to_fixed::<FixedU16<U4>>().to_bits()
}

/// A single-channel PWM set-up.
#[derive(Clone, Copy, Debug, PartialEq, Eq, Structural)]
pub struct PwmSetup {
    /// The counter wrap value.
    pub top: u16,
    /// The compare value of channel A.
    pub compare_a: u16,
    /// The raw bits of the 12.4 fixed-point clock divider.
    pub divider_bits: u16,
}

/// The set-up that shows a potentiometer reading on an LED: the counter
/// wraps at the ADC's full scale and the reading is the compare value, with
/// the divider left at one.
pub fn potentiometer_pwm(reading: u16) -> (p: PwmSetup)
    ensures
        p.top == ADC_TOP,
        p.compare_a == reading,
        p.divider_bits == 16,
{
    PwmSetup { top: ADC_TOP, compare_a: reading, divider_bits: divider_bits(1) }
}

/// The servo slice before any pulse is set: 50 Hz, compare value zero.
pub fn servo_pwm() -> (p: PwmSetup)
    ensures
        p.top == SERVO_TOP,
        p.compare_a == 0,
        p.divider_bits == SERVO_DIVIDER * 16,
{
    PwmSetup { top: SERVO_TOP, compare_a: 0, divider_bits: divider_bits(SERVO_DIVIDER) }
}

/// The counter value that a pulse of `pulse_us` microseconds lasts, for a
/// counter wrapping at `top` once per period, rounded down.
pub open spec fn pulse_ticks(pulse_us: int, top: int) -> int {
    pulse_us * top / PERIOD_US as int
}

/// The compare value `elapsed_ms` milliseconds after the start: in even
/// seconds the pulse grows from `min` to `max`, in odd seconds it shrinks
/// back, linearly over the 999 millisecond steps of the second.
pub open spec fn sweep_compare(min: int, max: int, elapsed_ms: int) -> int {
    let seconds = elapsed_ms / 1000;
    let ms = elapsed_ms % 1000;
    let t = if seconds % 2 == 0 {
        ms
    } else {
        999 - ms
    };
    min + t * (max - min) / 999
}

/// The pulse range of a servo and the sweep between its ends.
pub struct ServoSweep {
    min_pulse: u16,
    max_pulse: u16,
}

impl ServoSweep {
    #[verifier::type_invariant]
    spec fn ordered(self) -> bool {
        self.min_pulse <= self.max_pulse
    }

    /// The compare value of the 0 degree pulse.
    pub closed spec fn min(self) -> int {
        self.min_pulse as int
    }

    /// The compare value of the 180 degree pulse.
    pub closed spec fn max(self) -> int {
        self.max_pulse as int
    }

    /// The sweep for a counter wrapping at `top` once per servo period.
    pub fn new(top: u16) -> (s: ServoSweep)
        ensures
            s.min() == pulse_ticks(MIN_PULSE_US as int, top as int),
            s.max() == pulse_ticks(MAX_PULSE_US as int, top as int),
            s.min() <= s.max(),
    {
        let top = top as u64;
        let min_pulse = (MIN_PULSE_US * top) / PERIOD_US;
        let max_pulse = (MAX_PULSE_US * top) / PERIOD_US;
        assert(min_pulse <= max_pulse && max_pulse <= 8192) by (nonlinear_arith)
            requires
                top <= 65535,
                min_pulse == (500 * top) / 20000,
                max_pulse == (2500 * top) / 20000,
        ;
        ServoSweep { min_pulse: min_pulse as u16, max_pulse: max_pulse as u16 }
    }

    /// The compare value of the 0 degree pulse.
    pub fn min_pulse(&self) -> (r: u16)
        ensures
            r == self.min(),
    {
        self.min_pulse
    }

    /// The compare value of the 180 degree pulse.
    pub fn max_pulse(&self) -> (r: u16)
        ensures
            r == self.max(),
    {
        self.max_pulse
    }

    /// The compare value `elapsed_ms` milliseconds after the start.
    pub fn compare_at(&self, elapsed_ms: u64) -> (r: u16)
        ensures
            r == sweep_compare(self.min(), self.max(), elapsed_ms as int),
            self.min() <= r <= self.max(),
    {
        proof {
            use_type_invariant(self);
        }
        let seconds = elapsed_ms / 1000;
        let milliseconds = elapsed_ms % 1000;
        let span = (self.max_pulse - self.min_pulse) as u64;
        let t = if seconds % 2 == 0 {
            milliseconds
        } else {
            999 - milliseconds
        };
        assert(t * span / 999 <= span) by (nonlinear_arith)
            requires
                t <= 999,
        ;
        assert(0 <= t * span / 999) by (nonlinear_arith)
            requires
                0 <= t,
                0 <= span,
        ;
        let offset = (t * span) / 999;
        self.min_pulse + offset as u16
    }
}

/// The sweep reaches each end exactly at the turn of a second and starts the
/// next second from the same compare value, so the servo never jumps.
pub proof fn sweep_is_continuous(min: int, max: int, elapsed_ms: int)
    requires
        0 <= min <= max,
        0 <= elapsed_ms,
        elapsed_ms % 1000 == 999,
    ensures
        sweep_compare(min, max, elapsed_ms) == sweep_compare(min, max, elapsed_ms + 1),
        sweep_compare(min, max, elapsed_ms) == if (elapsed_ms / 1000) % 2 == 0 {
            max
        } else {
            min
        },
{
    assert((elapsed_ms + 1) / 1000 == elapsed_ms / 1000 + 1);
    assert((elapsed_ms + 1) % 1000 == 0);
    assert(999 * (max - min) / 999 == max - min) by (nonlinear_arith)
        requires
            0 <= max - min,
    ;
}

/// The sweep repeats every two seconds.
pub proof fn sweep_is_periodic(min: int, max: int, elapsed_ms: int)
    requires
        0 <= elapsed_ms,
    ensures
        sweep_compare(min, max, elapsed_ms + 2000) == sweep_compare(min, max, elapsed_ms),
{
    assert((elapsed_ms + 2000) / 1000 == elapsed_ms / 1000 + 2);
    assert((elapsed_ms + 2000) % 1000 == elapsed_ms % 1000);
}

/// The way back mirrors the way out: `m` milliseconds into an even second
/// the servo stands where it stands `m` milliseconds before the end of the
/// following second.
pub proof fn sweep_back_mirrors_sweep_out(min: int, max: int, periods: int, m: int)
    requires
        0 <= periods,
        0 <= m < 1000,
    ensures
        sweep_compare(min, max, 2000 * periods + m) == sweep_compare(
            min,
            max,
            2000 * periods + 1000 + (999 - m),
        ),
{
    assert((2000 * periods + m) / 1000 == 2 * periods);
    assert((2000 * periods + m) % 1000 == m);
    assert((2000 * periods + 1000 + (999 - m)) / 1000 == 2 * periods + 1);
    assert((2000 * periods + 1000 + (999 - m)) % 1000 == 999 - m);
}

/// Within one second the servo moves one way only: in an even second the
/// compare value grows from `min` by `(max - min) / 999` per millisecond
/// (rounded down), so a later time never gives a smaller value; in an odd
/// second it shrinks back the same way.
pub proof fn sweep_moves_one_way_per_second(min: int, max: int, a: int, b: int)
    requires
        0 <= min <= max,
        0 <= a <= b,
        a / 1000 == b / 1000,
    ensures
        (a / 1000) % 2 == 0 ==> sweep_compare(min, max, a) == min + (a % 1000) * (max - min) / 999,
        (a / 1000) % 2 == 0 ==> sweep_compare(min, max, a) <= sweep_compare(min, max, b),
        (a / 1000) % 2 == 1 ==> sweep_compare(min, max, a) == min + (999 - a % 1000) * (max - min)
            / 999,
        (a / 1000) % 2 == 1 ==> sweep_compare(min, max, b) <= sweep_compare(min, max, a),
{
    let x = a % 1000;
    let y = b % 1000;
    assert(x <= y);
    let d = max - min;
    assert(x * d / 999 <= y * d / 999 && (999 - y) * d / 999 <= (999 - x) * d / 999)
        by (nonlinear_arith)
        requires
            0 <= x <= y <= 999,
            0 <= d,
    ;
}

} // verus!
