//! Verified decision logic for a set of Raspberry Pi Pico exercises: Morse
//! signalling, RGB colour mixing, servo sweeping, button-driven dimming,
//! traffic lights and LEDs driven over the network.
//!
//! Every function here is pure with respect to the hardware: it computes
//! what the pins, timers and sockets should do, and the firmware performs it.

pub mod dimmer;
pub mod text;
pub mod leds;
pub mod remote;
pub mod morse;
pub mod rgb;
pub mod servo;
pub mod blink;
pub mod traffic;
pub mod crossing;
