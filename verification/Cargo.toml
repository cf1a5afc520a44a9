[package]
name = "sdf_scene"
version = "0.1.0"
edition = "2021"
publish = false

[dependencies]
bytemuck = { version = "1", features = ["derive"] }
cgmath = "0.18"
wgpu = "0.16"
winit = "0.28"
