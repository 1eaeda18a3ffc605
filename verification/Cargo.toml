[package]
name = "zxpresent"
version = "0.1.0"
edition = "2021"
publish = false

[dependencies]
anyhow = "1"
bytemuck = { version = "1", features = ["derive"] }
image = { version = "*", default-features = false, features = ["png"] }
pollster = "*"
wgpu = "25"
winit = "0.30"
