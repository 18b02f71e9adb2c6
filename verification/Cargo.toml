[package]
name = "grafx"
version = "0.1.0"
edition = "2021"
publish = false

[dependencies]
bytemuck = "1"
env_logger = { version = "0.11", default-features = false }
glam = "*"
image = { version = "0.25", default-features = false, features = ["png"] }
log = "0.4"
pollster = "0.3"
wgpu = "0.20"
winit = { version = "0.30", default-features = false, features = ["x11", "rwh_06"] }
