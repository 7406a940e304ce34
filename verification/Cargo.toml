[package]
name = "liquid_glass"
version = "0.1.0"
edition = "2021"
publish = false

[dependencies]
iced = { version = "=0.14.0", default-features = false, features = ["thread-pool", "x11", "tiny-skia", "advanced", "canvas"] }
iced_core = "=0.14.0"
image = { version = "=0.25.10", default-features = false, features = ["png"] }
