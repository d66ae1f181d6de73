[package]
name = "rp2040_time_driver"
version = "0.1.0"
edition = "2021"
publish = false

[dependencies]
rp2040-hal = { version = "=0.9.2", features = ["rt"] }
embassy-time = "=0.1.5"
critical-section = "=1.2.0"
