[package]
name = "pathtracer"
version = "0.1.0"
edition = "2021"
publish = false

[dependencies]
anyhow = "1"
bytemuck = { version = "1", features = ["derive"] }
pollster = { version = "0.3", features = ["macro"] }
wgpu = { version = "0.19", default-features = false, features = ["wgsl"] }
