[package]
name = "monolith_core"
version = "0.1.0"
edition = "2021"
publish = false

[dependencies]
uuid = { version = "=1.27.0", features = ["v4"] }
bevy = { version = "=0.19.1", default-features = false }
bevy_egui = { version = "=0.42.0", default-features = false }
egui_dock = "=0.21.1"
