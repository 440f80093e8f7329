[package]
name = "pancam"
version = "0.1.0"
edition = "2021"
publish = false

[dependencies]
bevy = { version = "=0.12.1", default-features = false }
bevy_window = "=0.12.1"
egui = { version = "=0.24.1", default-features = false }
tiled = { version = "=0.11.2", default-features = false }
