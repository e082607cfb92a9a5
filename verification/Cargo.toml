[package]
name = "watchdog"
version = "0.1.0"
edition = "2021"
publish = false

[dependencies]
crossbeam-channel = "0.5"

[dev-dependencies]
crossbeam-utils = "0.8"
