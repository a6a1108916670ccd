[package]
name = "audio_playback"
version = "0.1.0"
edition = "2021"
publish = false

[dependencies]
crossbeam-channel = "=0.5.17"
symphonia = "=0.5.5"
