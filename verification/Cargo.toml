[package]
name = "chip_8_emulator"
version = "0.1.0"
edition = "2021"
publish = false

[dependencies]
clap = { version = "=4.6.7", features = ["derive"] }
pixels = "0.13"
rand = "=0.8.8"
tracing = "=0.1.44"
tracing-subscriber = { version = "=0.3.23", features = ["env-filter"] }
winit = { version = "=0.30.13", default-features = false, features = ["x11", "rwh_05"] }
