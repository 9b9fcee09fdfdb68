[package]
name = "voxmesh"
version = "0.1.0"
edition = "2021"
publish = false

[dependencies]
anyhow = "*"
bytemuck = { version = "*", features = ["derive"] }
env_logger = "*"
glam = "*"
log = "*"
pollster = "*"
wgpu = "*"
winit = "*"
