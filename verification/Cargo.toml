[package]
name = "piezo_tunes"
version = "0.1.0"
edition = "2021"
publish = false

[dev-dependencies]
micromath = "*"
num-rational = "*"
