[package]
name = "resample2d"
version = "0.1.0"
edition = "2021"
publish = false

[dependencies]
conv = "0.3"
image = { version = "*", default-features = false }
