# pico_labs

Verified decision logic for a set of Raspberry Pi Pico (RP2040) exercises
built on Embassy: Morse code on LEDs, RGB colour mixing from buttons and a
photoresistor, a servo sweep, button-driven dimming, blinking tasks, two
traffic lights and LEDs driven over TCP.

- `src/` is the library, verified with Verus. Each module computes what the
  pins, timers and sockets should do: `morse`, `rgb`, `servo`, `dimmer`,
  `blink`, `traffic`, `crossing`, `remote` (with `leds` and `text`).
- `app/` is the firmware: it owns the peripherals, awaits buttons, timers and
  sockets, and performs what the library decides.
- `tests/` runs the library on concrete values.
