[package]
name = "reactionlab"
version = "0.1.0"
edition = "2021"
publish = false

[dependencies]
chrono = "0.4"
rand = "0.10"
dirs = "6"
serde = { version = "1", features = ["derive"] }
serde_json = "1"
eframe = { version = "*", default-features = false, features = ["wgpu", "default_fonts", "x11", "wayland"] }
egui_plot = "*"
rfd = "*"
ffmpeg-sidecar = "*"
