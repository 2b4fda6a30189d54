//! Colours on a common-anode RGB LED driven by two PWM slices.
//!
//! The red and green pins share one slice (channels A and B), the blue pin
//! has its own. Because the LED is common anode, a channel glows more the
//! lower its duty cycle, so every channel value is inverted.

use vstd::prelude::*;

verus! {

/// A colour as red, green and blue intensities.
#[derive(Clone, Copy, Debug)]
pub struct Color(pub (u8, u8, u8));

impl Color {
    /// Full red.
    pub fn red() -> (c: Color)
        ensures
            c == Color((255, 0, 0)),
    {
        Color((255, 0, 0))
    }

    /// Full red and green.
    pub fn yellow() -> (c: Color)
        ensures
            c == Color((255, 255, 0)),
    {
        Color((255, 255, 0))
    }

    /// Full blue.
    pub fn blue() -> (c: Color)
        ensures
            c == Color((0, 0, 255)),
    {
        Color((0, 0, 255))
    }
}

/// The PWM set-up that shows a colour.
#[derive(Clone, Copy, Debug, PartialEq, Eq, Structural)]
pub struct RgbPwm {
    /// The counter wrap value of the red-green slice.
    pub top: u16,
    /// Compare value of channel A (red).
    pub compare_a: u16,
    /// Compare value of channel B (green).
    pub compare_b: u16,
    /// Numerator of the blue duty cycle fraction.
    pub blue_num: u16,
    /// Denominator of the blue duty cycle fraction.
    pub blue_denom: u16,
}

/// The largest channel value.
pub const CHANNEL_MAX: u16 = 255;

impl Color {
    /// The PWM set-up for this colour: each channel inverted against the
    /// full value 255, which is also the counter wrap of the red-green slice
    /// and the denominator of the blue fraction.
    pub fn to_led_pwm(self) -> (p: RgbPwm)
        ensures
            p.top == CHANNEL_MAX,
            p.compare_a == CHANNEL_MAX - self.0.0,
            p.compare_b == CHANNEL_MAX - self.0.1,
            p.blue_num == CHANNEL_MAX - self.0.2,
            p.blue_denom == CHANNEL_MAX,
    {
        let (r, g, b) = self.0;
        let r = CHANNEL_MAX - r as u16;
        let g = CHANNEL_MAX - g as u16;
        let b = CHANNEL_MAX - b as u16;
        RgbPwm { top: CHANNEL_MAX, compare_a: r, compare_b: g, blue_num: b, blue_denom: CHANNEL_MAX }
    }
}

/// The colour at position `i` of the cycle red, yellow, blue.
pub open spec fn palette(i: int) -> Color {
    if i % 3 == 0 {
        Color((255, 0, 0))
    } else if i % 3 == 1 {
        Color((255, 255, 0))
    } else {
        Color((0, 0, 255))
    }
}

/// Red, yellow, blue, red, ... one colour per button press.
pub struct ColorCycle {
    position: usize,
}

impl ColorCycle {
    #[verifier::type_invariant]
    spec fn valid(self) -> bool {
        self.position < 3
    }

    /// The position of the colour that the next call gives.
    pub closed spec fn pos(self) -> int {
        self.position as int
    }

    /// A cycle that starts at red.
    pub fn new() -> (c: ColorCycle)
        ensures
            c.pos() == 0,
    {
        ColorCycle { position: 0 }
    }

    /// The next colour of the cycle.
    pub fn next_color(&mut self) -> (c: Color)
        ensures
            c == palette(old(self).pos()),
            final(self).pos() == (old(self).pos() + 1) % 3,
            0 <= final(self).pos() < 3,
    {
        proof {
            use_type_invariant(&*self);
        }
        let c = if self.position == 0 {
            Color::red()
        } else if self.position == 1 {
            Color::yellow()
        } else {
            Color::blue()
        };
        self.position = if self.position == 2 {
            0
        } else {
            self.position + 1
        };
        c
    }
}

/// After three colours the cycle is back where it was.
pub proof fn cycle_repeats_every_three(pos: int)
    requires
        0 <= pos < 3,
    ensures
        ((((pos + 1) % 3) + 1) % 3 + 1) % 3 == pos,
        palette(pos + 3) == palette(pos),
{
}

/// The largest reading of the 12-bit ADC.
pub const MAX_INTENSITY: u16 = 4095;

/// The reading that separates the red-green half from the green-blue half.
pub open spec fn mid_point() -> int {
    (MAX_INTENSITY / 2) as int
}

/// The red, green and blue intensities shown for a light reading: from red
/// through green at the mid point to blue at the top, each channel
/// interpolated linearly and rounded down.
pub open spec fn light_channels(value: int) -> (int, int, int) {
    let mid = mid_point();
    if value <= mid {
        (255 * (mid - value) / mid, 255 * value / mid, 0)
    } else {
        let v = value - (mid + 1);
        (0, 255 * (mid - v) / mid, 255 * v / mid)
    }
}

proof fn scaled_fits(a: int)
    requires
        0 <= a <= 2047,
    ensures
        0 <= 255 * a / 2047 <= 255,
{
    assert(0 <= 255 * a / 2047 <= 255) by (nonlinear_arith)
        requires
            0 <= a <= 2047,
    ;
}

impl Color {
    /// The colour for a reading of the photoresistor.
    pub fn from_light_level(value: u16) -> (c: Color)
        requires
            value <= MAX_INTENSITY,
        ensures
            c.0.0 == light_channels(value as int).0,
            c.0.1 == light_channels(value as int).1,
            c.0.2 == light_channels(value as int).2,
    {
        let value = value as u32;
        let mid_point: u32 = (MAX_INTENSITY / 2) as u32;
        let red: u32;
        let green: u32;
        let blue: u32;
        if value <= mid_point {
            proof {
                scaled_fits(mid_point - value);
                scaled_fits(value as int);
            }
            red = 255 * (mid_point - value) / mid_point;
            green = 255 * value / mid_point;
            blue = 0;
        } else {
            let value = value - (mid_point + 1);
            proof {
                scaled_fits(mid_point - value);
                scaled_fits(value as int);
            }
            red = 0;
            green = 255 * (mid_point - value) / mid_point;
            blue = 255 * value / mid_point;
        }
        Color((red as u8, green as u8, blue as u8))
    }
}

/// In the lower half blue is off and red and green share the full
/// intensity; in the upper half red is off and green and blue share it.
/// Rounding down loses at most one step.
pub proof fn light_channels_share_intensity(value: int)
    requires
        0 <= value <= MAX_INTENSITY,
    ensures
        value <= mid_point() ==> {
            &&& light_channels(value).2 == 0
            &&& 254 <= light_channels(value).0 + light_channels(value).1 <= 255
        },
        value > mid_point() ==> {
            &&& light_channels(value).0 == 0
            &&& 254 <= light_channels(value).1 + light_channels(value).2 <= 255
        },
{
    let v = if value <= mid_point() { value } else { value - (mid_point() + 1) };
    assert(254 <= 255 * (2047 - v) / 2047 + 255 * v / 2047 <= 255) by (nonlinear_arith)
        requires
            0 <= v <= 2047,
    ;
}

/// Within each half, a brighter reading never makes the fading channel
/// brighter nor the rising channel darker.
pub proof fn light_channels_are_monotone(v1: int, v2: int)
    requires
        0 <= v1 <= v2 <= MAX_INTENSITY,
    ensures
        v2 <= mid_point() ==> light_channels(v2).0 <= light_channels(v1).0 && light_channels(
            v1,
        ).1 <= light_channels(v2).1,
        mid_point() < v1 ==> light_channels(v2).1 <= light_channels(v1).1 && light_channels(
            v1,
        ).2 <= light_channels(v2).2,
{
    let a1 = if v1 <= mid_point() { v1 } else { v1 - (mid_point() + 1) };
    let a2 = if v2 <= mid_point() { v2 } else { v2 - (mid_point() + 1) };
    if (v2 <= mid_point() || mid_point() < v1) {
        assert(255 * a1 / 2047 <= 255 * a2 / 2047 && 255 * (2047 - a2) / 2047 <= 255 * (2047 - a1)
            / 2047) by (nonlinear_arith)
            requires
                0 <= a1 <= a2 <= 2047,
        ;
    }
}

} // verus!
