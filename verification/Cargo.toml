[package]
name = "voxelgame"
version = "0.1.0"
edition = "2021"
publish = false

[dependencies]
anyhow = "1"
bincode = "1.3"
bytemuck = "1"
cgmath = { version = "0.18", features = ["serde"] }
egui = "0.18"
egui-wgpu = "0.18"
env_logger = "0.9"
euclid = "0.22"
image = { version = "0.24", default-features = false, features = ["png"] }
instant = "0.1"
log = "0.4"
pollster = "0.2"
rand = "0.8"
serde = { version = "1", features = ["derive"] }
uuid = { version = "1", features = ["v4", "serde"] }
wgpu = "0.12"
winit = "0.26"
