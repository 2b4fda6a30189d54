//! Brightness of an LED driven by two buttons, one step per press.

use vstd::prelude::*;

verus! {

/// The request that a button press carries.
#[derive(Clone, Copy, Debug, PartialEq, Eq, Structural)]
pub enum Command {
    /// Lowers the duty cycle (the LED is wired active low, so it glows more).
    Increase,
    /// Raises the duty cycle, up to the full percentage.
    Decrease,
}

/// How much one press moves the duty cycle, in percent.
pub const STEP: u8 = 10;

/// The largest duty cycle, in percent.
pub const FULL: u8 = 100;

/// The duty cycle set when the firmware starts, in percent.
pub const INITIAL_INTENSITY: u8 = 50;

/// The duty cycle after `cmd` is applied to `intensity`.
pub open spec fn next_intensity(intensity: int, cmd: Command) -> int {
    match cmd {
        Command::Increase => if intensity >= STEP { intensity - STEP } else { 0 },
        Command::Decrease => if intensity + STEP <= FULL { intensity + STEP } else { FULL as int },
    }
}

/// Applies one button press: `Increase` subtracts a step, stopping at zero;
/// `Decrease` adds a step, stopping at the full percentage.
pub fn apply_command(intensity: u8, cmd: Command) -> (r: u8)
    requires
        cmd == Command::Decrease ==> intensity + STEP <= u8::MAX,
    ensures
        r == next_intensity(intensity as int, cmd),
{
    match cmd {
        Command::Increase => intensity.saturating_sub(STEP),
        Command::Decrease => {
            let raised = intensity + STEP;
            if raised < FULL {
                raised
            } else {
                FULL
            }
        },
    }
}

/// The duty cycle of the dimmed LED, kept between zero and the full percentage.
pub struct Dimmer {
    intensity: u8,
}

impl Dimmer {
    #[verifier::type_invariant]
    spec fn in_range(self) -> bool {
        self.intensity <= FULL
    }

    /// The duty cycle, in percent.
    pub closed spec fn level(self) -> int {
        self.intensity as int
    }

    /// A dimmer at the starting duty cycle.
    pub fn new() -> (d: Dimmer)
        ensures
            d.level() == INITIAL_INTENSITY,
    {
        Dimmer { intensity: INITIAL_INTENSITY }
    }

    /// The current duty cycle, in percent.
    pub fn intensity(&self) -> (r: u8)
        ensures
            r == self.level(),
            r <= FULL,
    {
        proof {
            use_type_invariant(self);
        }
        self.intensity
    }

    /// Applies one press and returns the new duty cycle.
    pub fn press(&mut self, cmd: Command) -> (r: u8)
        ensures
            final(self).level() == next_intensity(old(self).level(), cmd),
            r == final(self).level(),
            r <= FULL,
    {
        proof {
            use_type_invariant(&*self);
        }
        let next = apply_command(self.intensity, cmd);
        self.intensity = next;
        next
    }
}

/// From any duty cycle within range, a press leaves it within range.
pub proof fn intensity_stays_in_range(intensity: int, cmd: Command)
    requires
        0 <= intensity <= FULL,
    ensures
        0 <= next_intensity(intensity, cmd) <= FULL,
{
}

/// `Increase` never raises the duty cycle and `Decrease` never lowers it.
pub proof fn presses_are_monotone(intensity: int)
    requires
        0 <= intensity <= FULL,
    ensures
        next_intensity(intensity, Command::Increase) <= intensity,
        intensity <= next_intensity(intensity, Command::Decrease),
{
}

/// Away from the lower bound, a `Decrease` press undoes an `Increase` press.
pub proof fn decrease_undoes_increase(intensity: int)
    requires
        STEP <= intensity <= FULL,
    ensures
        next_intensity(next_intensity(intensity, Command::Increase), Command::Decrease) == intensity,
{
}

/// Away from the upper bound, an `Increase` press undoes a `Decrease` press.
pub proof fn increase_undoes_decrease(intensity: int)
    requires
        0 <= intensity <= FULL - STEP,
    ensures
        next_intensity(next_intensity(intensity, Command::Decrease), Command::Increase) == intensity,
{
}

/// Within one step of a bound, a press stops at that bound.
pub proof fn presses_saturate_at_bounds(intensity: int)
    requires
        0 <= intensity <= FULL,
    ensures
        intensity < STEP ==> next_intensity(intensity, Command::Increase) == 0,
        intensity > FULL - STEP ==> next_intensity(intensity, Command::Decrease) == FULL,
{
}

/// A press moves the duty cycle by exactly one step of ten percent, unless
/// that would leave the range, in which case it stops at 0 or 100.
pub proof fn press_moves_one_step(intensity: int)
    requires
        0 <= intensity <= 100,
    ensures
        intensity >= 10 ==> next_intensity(intensity, Command::Increase) == intensity - 10,
        intensity < 10 ==> next_intensity(intensity, Command::Increase) == 0,
        intensity <= 90 ==> next_intensity(intensity, Command::Decrease) == intensity + 10,
        intensity > 90 ==> next_intensity(intensity, Command::Decrease) == 100,
{
}

} // verus!
