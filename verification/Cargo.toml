[package]
name = "jack_keyboard"
version = "0.1.0"
edition = "2021"
publish = false

[dependencies]
jack = "*"
winit = "0.28"
