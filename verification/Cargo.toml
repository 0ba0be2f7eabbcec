[package]
name = "surface_presenter"
version = "0.1.0"
edition = "2021"
publish = false

[dependencies]
anyhow = "1"
pollster = "0.3"
wgpu = { version = "27", default-features = false, features = ["std", "wgsl", "vulkan"] }
winit = { version = "0.29", default-features = false, features = ["x11", "rwh_06"] }
