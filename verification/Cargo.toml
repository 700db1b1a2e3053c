[package]
name = "z-audio-dsp"
version = "0.1.0"
edition = "2021"
publish = false

[dependencies]
hound = "3"
rand = { version = "0.8", features = ["small_rng"] }
