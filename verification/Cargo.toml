[package]
name = "vad_engine"
version = "0.1.0"
edition = "2021"
publish = false

[dependencies]
anyhow = "1"
log = "0.4"
reqwest = "0.12"
vad-rs = "*"
webrtc-vad = "0.4"
