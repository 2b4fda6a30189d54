[package]
name = "pico_labs"
version = "0.1.0"
edition = "2021"
publish = false

[dependencies]
embassy-time = { version = "=0.5.1", features = ["std"] }
fixed = "=1.31.0"
embassy-futures = "=0.1.2"
embassy-sync = "=0.8.0"
embedded-io-async = "=0.7.0"
static_cell = "=2.1.1"
heapless = "=0.9.3"
