[package]
name = "wgpu_app"
version = "0.1.0"
edition = "2021"
publish = false

[dependencies]
anyhow = "1"
bytemuck = { version = "1", features = ["derive"] }
glam = "0.29"
pollster = "0.3"
wgpu = "0.20"
winit = { version = "0.30", default-features = false, features = ["rwh_06", "x11"] }
