//! A pedestrian crossing: cars see green until the button is pressed, then
//! yellow for a second, then red while the blue walk light blinks five
//! times, half a second per toggle, and then green again. The LEDs are wired
//! active low.

use vstd::prelude::*;

verus! {

/// How long yellow shows, in milliseconds.
pub const WARNING_MILLIS: u64 = 1000;

/// The time between two toggles of the walk light, in milliseconds.
pub const WALK_STEP_MILLIS: u64 = 500;

/// How many times the walk light is toggled.
pub const WALK_TOGGLES: u8 = 5;

/// Where the crossing is in its cycle.
#[derive(Clone, Copy, Debug, PartialEq, Eq, Structural)]
pub enum CrossingPhase {
    /// Cars have green; waiting for the button.
    Idle,
    /// Cars have yellow.
    Warning,
    /// Cars have red; the walk light has been toggled this many times
    /// beyond the first.
    Walking(u8),
}

/// What ends the current phase.
#[derive(Clone, Copy, Debug, PartialEq, Eq, Structural)]
pub enum Wait {
    /// The button going low.
    ButtonPress,
    /// This many milliseconds.
    Millis(u64),
}

/// Output levels of the four LEDs; `true` is a high pin, which leaves the
/// LED dark.
#[derive(Clone, Copy, Debug, PartialEq, Eq, Structural)]
pub struct CrossingLights {
    pub red: bool,
    pub green: bool,
    pub blue: bool,
    pub yellow: bool,
}

/// What ends `phase`.
pub open spec fn phase_wait(phase: CrossingPhase) -> Wait {
    match phase {
        CrossingPhase::Idle => Wait::ButtonPress,
        CrossingPhase::Warning => Wait::Millis(WARNING_MILLIS),
        CrossingPhase::Walking(_) => Wait::Millis(WALK_STEP_MILLIS),
    }
}

/// The phase after `phase`.
pub open spec fn next_crossing_phase(phase: CrossingPhase) -> CrossingPhase {
    match phase {
        CrossingPhase::Idle => CrossingPhase::Warning,
        CrossingPhase::Warning => CrossingPhase::Walking(0),
        CrossingPhase::Walking(k) => if k + 1 >= WALK_TOGGLES {
            CrossingPhase::Idle
        } else {
            CrossingPhase::Walking((k + 1) as u8)
        },
    }
}

/// The lights after moving on from `phase`: the button turns green off and
/// yellow on; the end of yellow turns red on, yellow off and toggles the
/// walk light; each further step toggles the walk light; after the last
/// one red and blue go off and green comes back.
pub open spec fn advance_lights(l: CrossingLights, phase: CrossingPhase) -> CrossingLights {
    match phase {
        CrossingPhase::Idle => CrossingLights { green: true, yellow: false, ..l },
        CrossingPhase::Warning => CrossingLights { red: false, yellow: true, blue: !l.blue, ..l },
        CrossingPhase::Walking(k) => if k + 1 >= WALK_TOGGLES {
            CrossingLights { red: true, blue: true, green: false, ..l }
        } else {
            CrossingLights { blue: !l.blue, ..l }
        },
    }
}

/// The lights at the start: green lit, the rest dark.
pub open spec fn initial_lights() -> CrossingLights {
    CrossingLights { red: true, green: false, blue: true, yellow: true }
}

/// The lights that the cycle shows in `phase`.
pub open spec fn crossing_lights_of(phase: CrossingPhase) -> CrossingLights {
    match phase {
        CrossingPhase::Idle => initial_lights(),
        CrossingPhase::Warning => CrossingLights { red: true, green: true, blue: true, yellow: false },
        CrossingPhase::Walking(k) => CrossingLights {
            red: false,
            green: true,
            blue: k % 2 == 1,
            yellow: true,
        },
    }
}

/// A pedestrian crossing in some phase.
pub struct Crossing {
    phase: CrossingPhase,
    lights: CrossingLights,
}

impl Crossing {
    #[verifier::type_invariant]
    spec fn consistent(self) -> bool {
        &&& self.phase matches CrossingPhase::Walking(k) ==> k < WALK_TOGGLES
        &&& self.lights == crossing_lights_of(self.phase)
    }

    /// The current phase.
    pub closed spec fn phase_spec(self) -> CrossingPhase {
        self.phase
    }

    /// The current light levels.
    pub closed spec fn lights_spec(self) -> CrossingLights {
        self.lights
    }

    /// The crossing at rest: cars have green.
    pub fn new() -> (c: Crossing)
        ensures
            c.phase_spec() == CrossingPhase::Idle,
            c.lights_spec() == initial_lights(),
    {
        Crossing {
            phase: CrossingPhase::Idle,
            lights: CrossingLights { red: true, green: false, blue: true, yellow: true },
        }
    }

    /// The current phase.
    pub fn phase(&self) -> (p: CrossingPhase)
        ensures
            p == self.phase_spec(),
    {
        self.phase
    }

    /// The current light levels.
    pub fn lights(&self) -> (l: CrossingLights)
        ensures
            l == self.lights_spec(),
    {
        self.lights
    }

    /// What ends the current phase.
    pub fn wait(&self) -> (w: Wait)
        ensures
            w == phase_wait(self.phase_spec()),
    {
        match self.phase {
            CrossingPhase::Idle => Wait::ButtonPress,
            CrossingPhase::Warning => Wait::Millis(WARNING_MILLIS),
            CrossingPhase::Walking(_) => Wait::Millis(WALK_STEP_MILLIS),
        }
    }

    /// Moves on once the current phase's wait is over.
    pub fn advance(&mut self)
        ensures
            final(self).phase_spec() == next_crossing_phase(old(self).phase_spec()),
            final(self).lights_spec() == advance_lights(
                old(self).lights_spec(),
                old(self).phase_spec(),
            ),
    {
        proof {
            use_type_invariant(&*self);
        }
        let mut l = self.lights;
        let next = match self.phase {
            CrossingPhase::Idle => {
                l.green = true;
                l.yellow = false;
                CrossingPhase::Warning
            },
            CrossingPhase::Warning => {
                l.red = false;
                l.yellow = true;
                l.blue = !l.blue;
                CrossingPhase::Walking(0)
            },
            CrossingPhase::Walking(k) => {
                if k + 1 >= WALK_TOGGLES {
                    l.red = true;
                    l.blue = true;
                    l.green = false;
                    CrossingPhase::Idle
                } else {
                    l.blue = !l.blue;
                    CrossingPhase::Walking(k + 1)
                }
            },
        };
        *self = Crossing { phase: next, lights: l };
    }
}

/// The phase after `n` steps from `phase`.
pub open spec fn crossing_after(phase: CrossingPhase, n: nat) -> CrossingPhase
    decreases n,
{
    if n == 0 {
        phase
    } else {
        next_crossing_phase(crossing_after(phase, (n - 1) as nat))
    }
}

/// Whether `phase` is one that the cycle reaches.
pub open spec fn valid_crossing_phase(phase: CrossingPhase) -> bool {
    phase matches CrossingPhase::Walking(k) ==> k < WALK_TOGGLES
}

/// Moving on keeps the lights those of the phase.
pub proof fn crossing_lights_follow_the_phase(phase: CrossingPhase)
    requires
        valid_crossing_phase(phase),
    ensures
        valid_crossing_phase(next_crossing_phase(phase)),
        advance_lights(crossing_lights_of(phase), phase) == crossing_lights_of(
            next_crossing_phase(phase),
        ),
{
}

/// The sequence has seven steps (the press, the end of yellow and five walk
/// toggles): from any phase, seven steps lead back to it, and a press at
/// rest leads back to rest only after all seven.
pub proof fn crossing_cycle_has_seven_steps(phase: CrossingPhase)
    requires
        valid_crossing_phase(phase),
    ensures
        crossing_after(phase, 7) == phase,
        forall|n: nat| 0 < n < 7 ==> crossing_after(CrossingPhase::Idle, n) != CrossingPhase::Idle,
{
    reveal_with_fuel(crossing_after, 8);
    assert forall|n: nat| 0 < n < 7 implies crossing_after(CrossingPhase::Idle, n)
        != CrossingPhase::Idle by {
        reveal_with_fuel(crossing_after, 8);
    }
}

/// Cars never see more than one light, and while the walk light blinks
/// they see red.
pub proof fn crossing_lights_are_safe(phase: CrossingPhase)
    ensures
        (!crossing_lights_of(phase).red) as int + (!crossing_lights_of(phase).yellow) as int + (
        !crossing_lights_of(phase).green) as int == 1,
        !crossing_lights_of(phase).blue ==> !crossing_lights_of(phase).red,
{
}

} // verus!
