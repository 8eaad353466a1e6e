[package]
name = "physicsrenderer"
version = "0.1.0"
edition = "2021"
publish = false

[dependencies]
anyhow = "1"
bytemuck = { version = "1", features = ["derive"] }
cgmath = "0.18"
env_logger = "0.11"
log = "0.4"
pollster = "0.4"
rapier3d = "0.18"
wgpu = "25"
winit = "0.30"
