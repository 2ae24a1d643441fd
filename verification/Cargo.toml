[package]
name = "vfx"
version = "0.1.0"
edition = "2021"
publish = false
rust-version = "1.95"

[dependencies]
bevy = { version = "=0.17.3", default-features = false }
rand = "=0.10.3"
