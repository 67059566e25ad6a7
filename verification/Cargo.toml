[package]
name = "audio_capture"
version = "0.1.0"
edition = "2021"
publish = false

[dependencies]
cpal = "0.16"
evdev = "0.13"
log = "0.4"
rtrb = "0.3"
serde = { version = "1", features = ["derive"] }
