//! A traffic light that two buttons pressed together can hurry along.
//!
//! Green shows for 5 s, then yellow blinks: it is toggled eight times,
//! 125 ms apart, and finally red shows for 2 s. In any phase, both buttons
//! pressed end the wait at once; during yellow they also switch yellow off
//! and skip straight to red. The LEDs are wired active low.

use vstd::prelude::*;

verus! {

/// How long green shows, in milliseconds.
pub const GREEN_MILLIS: u64 = 5000;

/// How long red shows, in milliseconds.
pub const RED_MILLIS: u64 = 2000;

/// How many times yellow is toggled.
pub const YELLOW_TOGGLES: u8 = 8;

/// The time between two yellow toggles, in milliseconds.
pub const YELLOW_STEP_MILLIS: u64 = 125;

/// Where the traffic light is in its cycle.
#[derive(Clone, Copy, Debug, PartialEq, Eq, Structural)]
pub enum Phase {
    Green,
    /// Yellow, after this many toggles beyond the first.
    Yellow(u8),
    Red,
}

/// What ended a wait.
#[derive(Clone, Copy, Debug, PartialEq, Eq, Structural)]
pub enum Event {
    /// The phase's time ran out.
    Timeout,
    /// Both buttons were pressed.
    BothPressed,
}

/// Output levels of the three lights; `true` is a high pin, which leaves
/// the light dark.
#[derive(Clone, Copy, Debug, PartialEq, Eq, Structural)]
pub struct Lights {
    pub red: bool,
    pub yellow: bool,
    pub green: bool,
}

/// The wait of a phase, in milliseconds.
pub open spec fn phase_millis(phase: Phase) -> int {
    match phase {
        Phase::Green => GREEN_MILLIS as int,
        Phase::Yellow(_) => YELLOW_STEP_MILLIS as int,
        Phase::Red => RED_MILLIS as int,
    }
}

/// What entering `phase` does to the lights: green and red are lit,
/// yellow is toggled.
pub open spec fn enter(lights: Lights, phase: Phase) -> Lights {
    match phase {
        Phase::Green => Lights { green: false, ..lights },
        Phase::Yellow(_) => Lights { yellow: !lights.yellow, ..lights },
        Phase::Red => Lights { red: false, ..lights },
    }
}

/// The phase after `phase` once `event` ends its wait.
pub open spec fn next_phase(phase: Phase, event: Event) -> Phase {
    match phase {
        Phase::Green => Phase::Yellow(0),
        Phase::Yellow(k) => if event == Event::BothPressed || k + 1 >= YELLOW_TOGGLES {
            Phase::Red
        } else {
            Phase::Yellow((k + 1) as u8)
        },
        Phase::Red => Phase::Green,
    }
}

/// What leaving `phase` on `event` does to the lights: green and red go
/// dark; yellow goes dark when the buttons cut it short.
pub open spec fn leave(lights: Lights, phase: Phase, event: Event) -> Lights {
    match phase {
        Phase::Green => Lights { green: true, ..lights },
        Phase::Yellow(_) => if event == Event::BothPressed {
            Lights { yellow: true, ..lights }
        } else {
            lights
        },
        Phase::Red => Lights { red: true, ..lights },
    }
}

/// The lights that a well-run cycle shows in `phase`: exactly the light of
/// the phase, yellow lit on its even-numbered toggles.
pub open spec fn lights_of(phase: Phase) -> Lights {
    match phase {
        Phase::Green => Lights { red: true, yellow: true, green: false },
        Phase::Yellow(k) => Lights { red: true, yellow: k % 2 == 1, green: true },
        Phase::Red => Lights { red: false, yellow: true, green: true },
    }
}

/// A traffic light waiting in some phase.
pub struct TrafficLight {
    phase: Phase,
    lights: Lights,
}

impl TrafficLight {
    #[verifier::type_invariant]
    spec fn consistent(self) -> bool {
        &&& self.phase matches Phase::Yellow(k) ==> k < YELLOW_TOGGLES
        &&& self.lights == lights_of(self.phase)
    }

    /// The current phase.
    pub closed spec fn phase_spec(self) -> Phase {
        self.phase
    }

    /// The current light levels.
    pub closed spec fn lights_spec(self) -> Lights {
        self.lights
    }

    /// Starts the cycle: all lights dark, then green lit.
    pub fn new() -> (t: TrafficLight)
        ensures
            t.phase_spec() == Phase::Green,
            t.lights_spec() == enter(Lights { red: true, yellow: true, green: true }, Phase::Green),
    {
        TrafficLight { phase: Phase::Green, lights: Lights { red: true, yellow: true, green: false } }
    }

    /// The current phase.
    pub fn phase(&self) -> (p: Phase)
        ensures
            p == self.phase_spec(),
    {
        self.phase
    }

    /// The current light levels.
    pub fn lights(&self) -> (l: Lights)
        ensures
            l == self.lights_spec(),
    {
        self.lights
    }

    /// How long to wait in the current phase, unless both buttons are
    /// pressed first.
    pub fn wait_millis(&self) -> (ms: u64)
        ensures
            ms == phase_millis(self.phase_spec()),
    {
        match self.phase {
            Phase::Green => GREEN_MILLIS,
            Phase::Yellow(_) => YELLOW_STEP_MILLIS,
            Phase::Red => RED_MILLIS,
        }
    }

    /// Ends the current wait on `event`: the phase is left and the next one
    /// entered.
    pub fn on_event(&mut self, event: Event)
        ensures
            final(self).phase_spec() == next_phase(old(self).phase_spec(), event),
            final(self).lights_spec() == enter(
                leave(old(self).lights_spec(), old(self).phase_spec(), event),
                next_phase(old(self).phase_spec(), event),
            ),
    {
        proof {
            use_type_invariant(&*self);
        }
        let mut lights = self.lights;
        let next = match self.phase {
            Phase::Green => {
                lights.green = true;
                Phase::Yellow(0)
            },
            Phase::Yellow(k) => {
                if event == Event::BothPressed {
                    lights.yellow = true;
                    Phase::Red
                } else if k + 1 >= YELLOW_TOGGLES {
                    Phase::Red
                } else {
                    Phase::Yellow(k + 1)
                }
            },
            Phase::Red => {
                lights.red = true;
                Phase::Green
            },
        };
        match next {
            Phase::Green => {
                lights.green = false;
            },
            Phase::Yellow(_) => {
                lights.yellow = !lights.yellow;
            },
            Phase::Red => {
                lights.red = false;
            },
        }
        *self = TrafficLight { phase: next, lights };
    }
}

/// Whether `phase` is one that the cycle reaches.
pub open spec fn valid_phase(phase: Phase) -> bool {
    phase matches Phase::Yellow(k) ==> k < YELLOW_TOGGLES
}

/// Leaving a phase and entering the next keeps the lights those of the
/// phase: the light of the phase alone may be lit.
pub proof fn lights_follow_the_phase(phase: Phase, event: Event)
    requires
        valid_phase(phase),
    ensures
        valid_phase(next_phase(phase, event)),
        enter(leave(lights_of(phase), phase, event), next_phase(phase, event)) == lights_of(
            next_phase(phase, event),
        ),
{
}

/// Never more than one light is lit, and in green and red phases it is that
/// phase's light.
pub proof fn at_most_one_light_lit(phase: Phase)
    requires
        valid_phase(phase),
    ensures
        (!lights_of(phase).red) as int + (!lights_of(phase).yellow) as int + (!lights_of(
            phase,
        ).green) as int <= 1,
        phase == Phase::Green ==> !lights_of(phase).green,
        phase == Phase::Red ==> !lights_of(phase).red,
{
}

/// Green is followed by yellow, yellow by more yellow or red, red by
/// green; both buttons during yellow go straight to red.
pub proof fn phases_follow_the_cycle(phase: Phase, event: Event)
    requires
        valid_phase(phase),
    ensures
        phase == Phase::Green ==> next_phase(phase, event) == Phase::Yellow(0),
        phase == Phase::Red ==> next_phase(phase, event) == Phase::Green,
        phase is Yellow && event == Event::BothPressed ==> next_phase(phase, event) == Phase::Red,
        phase matches Phase::Yellow(k) ==> next_phase(phase, event) == Phase::Red || next_phase(
            phase,
            event,
        ) == Phase::Yellow((k + 1) as u8),
{
}

/// The phase after `n` waits that all time out.
pub open spec fn after_timeouts(phase: Phase, n: nat) -> Phase
    decreases n,
{
    if n == 0 {
        phase
    } else {
        next_phase(after_timeouts(phase, (n - 1) as nat), Event::Timeout)
    }
}

/// Left alone, yellow is toggled exactly eight times before red.
pub proof fn yellow_lasts_eight_toggles(n: nat)
    requires
        n <= YELLOW_TOGGLES,
    ensures
        n < YELLOW_TOGGLES ==> after_timeouts(Phase::Yellow(0), n) == Phase::Yellow(n as u8),
        n == YELLOW_TOGGLES ==> after_timeouts(Phase::Yellow(0), n) == Phase::Red,
    decreases n,
{
    if n > 0 {
        yellow_lasts_eight_toggles((n - 1) as nat);
    }
}

} // verus!
