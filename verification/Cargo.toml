[package]
name = "midi_colors"
version = "0.1.0"
edition = "2021"
publish = false

[dependencies]
midir = { version = "0.9", default-features = false }
