[package]
name = "kopki"
version = "0.1.0"
edition = "2021"
publish = false

[dependencies]
wgpu = { version = "=22.1.0", default-features = false, features = ["wgsl"] }
winit = { version = "0.30", default-features = false, features = ["rwh_06", "x11"] }
pollster = "=0.3.0"
bytemuck = { version = "=1.25.2", features = ["derive"] }
glam = "=0.28.0"
