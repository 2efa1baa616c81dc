[package]
name = "cube_conv"
version = "0.1.0"
edition = "2021"
publish = false

[dependencies]
burn-tensor = { version = "0.13", default-features = false }
