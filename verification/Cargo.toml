[package]
name = "magnet"
version = "0.1.0"
edition = "2021"
publish = false

[dependencies]
rand = "=0.8.8"
dolly = "=0.4.2"
bevy = { version = "=0.11.3", default-features = false }
