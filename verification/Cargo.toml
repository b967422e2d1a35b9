[package]
name = "wavesim"
version = "0.1.0"
edition = "2021"
publish = false

[dependencies]
bevy = { version = "0.13", default-features = false }
crossterm = "0.27"
macroquad = "0.4"
noise = "0.9"
