[package]
name = "render_host"
version = "0.1.0"
edition = "2021"
publish = false

[dependencies]
rand = "0.8"
wgpu = "0.15"
winit = { version = "0.28", default-features = false, features = ["x11"] }
image = { version = "0.24", default-features = false, features = ["png"] }
bytemuck = { version = "1", features = ["derive"] }
env_logger = "0.10"
