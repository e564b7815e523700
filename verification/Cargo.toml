[package]
name = "starstruck"
version = "0.1.0"
edition = "2021"
publish = false

[dependencies]
bytemuck = { version = "1", features = ["derive"] }
starry-ecs = "*"
thiserror = "1"
wgpu = "0.16"
winit = { version = "0.28", default-features = false, features = ["x11"] }
