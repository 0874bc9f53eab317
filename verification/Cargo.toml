[package]
name = "rmk"
version = "0.1.0"
edition = "2021"
publish = false

[dependencies]
rmk-types = { version = "=0.4.0", features = ["steno"] }
heapless = "=0.9.3"
embedded-hal = "1"
embedded-hal-async = "1"
embassy-time = "0.4"
embassy-futures = "0.1"
