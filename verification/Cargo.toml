[package]
name = "obito"
version = "0.1.0"
edition = "2021"
publish = false

[dependencies]
bytemuck = { version = "=1.25.2", features = ["derive"] }
glam = "=0.30.10"
pollster = "=1.0.1"
wgpu = "=29.0.4"
winit = "=0.30.13"
