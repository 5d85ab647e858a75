[package]
name = "spectral_bars"
version = "0.1.0"
edition = "2021"
publish = false

[dependencies]
rand = "0.8"
realfft = "3"
samplerate = "0.2"
symphonia = { version = "0.5", features = ["all"] }
tiny-skia = "0.11"
