[package]
name = "audio_recorder"
version = "0.1.0"
edition = "2021"
publish = false

[dependencies]
cpal = "*"
chrono = "*"

[dev-dependencies]
hound = "*"
