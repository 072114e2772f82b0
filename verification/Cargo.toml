[package]
name = "mcu_core"
version = "0.1.0"
edition = "2021"
publish = false

[dependencies]
embassy-time-driver = { version = "*", features = ["tick-hz-1_000_000"] }
embassy-time-queue-utils = { version = "*", features = ["generic-queue-8"] }
embassy-sync = "*"
embedded-hal = "*"
critical-section = { version = "*", features = ["std"] }
