[package]
name = "voxel_terrain"
version = "0.1.0"
edition = "2021"
publish = false

[dependencies]
bytemuck = { version = "1", features = ["derive"] }
env_logger = "0.10"
log = "0.4"
nalgebra = "0.32"
noise = "0.8"
num-traits = "0.2"
pollster = "0.3"
rand = "0.8"
wgpu = "0.15"
winit = "0.28"
