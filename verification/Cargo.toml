[package]
name = "spiral_galaxy"
version = "0.1.0"
edition = "2021"
publish = false

[dependencies]
rand = { version = "=0.8.8", features = ["small_rng"] }
egui_ratatui = "=0.0.23"
ratatui = { version = "0.28", default-features = false }
web-time = "=1.1.0"
