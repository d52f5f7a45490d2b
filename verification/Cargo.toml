[package]
name = "orbitview"
version = "0.1.0"
edition = "2021"
publish = false

[dependencies]
cgmath = "=0.18.0"
futures = { version = "=0.3.34", default-features = false, features = ["executor"] }
glam = "=0.34.0"
wgpu = { version = "=25.0.2", default-features = false, features = ["wgsl", "vulkan"] }
winit = { version = "=0.30.13", default-features = false, features = ["x11", "rwh_06"] }
