[package]
name = "svbar"
version = "0.1.0"
edition = "2021"
publish = false

[dependencies]
chrono = "=0.4.45"
ab_glyph = "=0.2.32"
smithay-client-toolkit = { version = "=0.20.0", default-features = false, features = ["calloop"] }
wayland-client = "=0.31.15"
ctrlc = "=3.5.2"
libpulse-binding = "=2.30.1"
