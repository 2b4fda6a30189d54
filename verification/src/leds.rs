//! The three LEDs that the network exercises drive, and their output levels.

use vstd::prelude::*;

verus! {

/// One of the three LEDs on the board.
#[derive(Clone, Copy, Debug, PartialEq, Eq, Structural)]
pub enum Led {
    Red,
    Blue,
    Green,
}

/// The output level of each LED; `true` is a high pin.
#[derive(Clone, Copy, Debug, PartialEq, Eq, Structural)]
pub struct LedLevels {
    pub red: bool,
    pub blue: bool,
    pub green: bool,
}

impl LedLevels {
    /// The level of `led`.
    pub open spec fn level_of(self, led: Led) -> bool {
        match led {
            Led::Red => self.red,
            Led::Blue => self.blue,
            Led::Green => self.green,
        }
    }

    /// These levels with `led` set to `level` and the others kept.
    pub open spec fn with_level(self, led: Led, level: bool) -> LedLevels {
        match led {
            Led::Red => LedLevels { red: level, ..self },
            Led::Blue => LedLevels { blue: level, ..self },
            Led::Green => LedLevels { green: level, ..self },
        }
    }

    /// All three pins low, as the firmware configures them at start.
    pub fn all_low() -> (l: LedLevels)
        ensures
            !l.red && !l.blue && !l.green,
    {
        LedLevels { red: false, blue: false, green: false }
    }

    /// The level of `led`.
    pub fn level(&self, led: Led) -> (r: bool)
        ensures
            r == self.level_of(led),
    {
        match led {
            Led::Red => self.red,
            Led::Blue => self.blue,
            Led::Green => self.green,
        }
    }

    /// Drives `led` to `level`, leaving the other two as they are.
    pub fn set_level(&mut self, led: Led, level: bool)
        ensures
            *final(self) == old(self).with_level(led, level),
    {
        match led {
            Led::Red => self.red = level,
            Led::Blue => self.blue = level,
            Led::Green => self.green = level,
        }
    }

    /// Flips the level of `led`, leaving the other two as they are.
    pub fn toggle(&mut self, led: Led)
        ensures
            *final(self) == old(self).with_level(led, !old(self).level_of(led)),
    {
        let flipped = !self.level(led);
        self.set_level(led, flipped);
    }
}

} // verus!
