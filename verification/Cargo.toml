[package]
name = "audio_downsample"
version = "0.1.0"
edition = "2021"
publish = false

[dependencies]
anyhow = "1"
ffmpeg-next = "7"
interprocess = "2"
