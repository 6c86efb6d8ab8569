[package]
name = "render_to_video"
version = "0.1.0"
edition = "2021"
publish = false

[dependencies]
anyhow = "1"
clap = { version = "4", features = ["derive"] }
eframe = { version = "*", default-features = false, features = ["wgpu"] }
egui = { version = "*", default-features = false }
egui-wgpu = { version = "*", default-features = false }
egui_kittest = { version = "*", default-features = false, features = ["eframe", "wgpu"] }
ffmpeg-sidecar = { version = "2", default-features = false }
glam = "*"
mcap = { version = "*", default-features = false }
parking_lot = "*"
serde = { version = "1", features = ["derive"] }
thiserror = "2"
wgpu = { version = "*", default-features = false }
