[package]
name = "video-rs"
version = "0.1.0"
edition = "2021"
publish = false

[dependencies]
ffmpeg-next = "=9.0.0"
ndarray = "0.16"
tracing = "=0.1.44"
