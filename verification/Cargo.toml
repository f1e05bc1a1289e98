[package]
name = "pitchvis"
version = "0.1.0"
edition = "2021"
publish = false

[dependencies]
clap = { version = "4", features = ["derive"] }
color-eyre = "0.6"
cpal = "0.15"
pitch-detection = "0.3"
rand = "0.8"
termion = "2"
