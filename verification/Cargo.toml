[package]
name = "rust_gpu_test"
version = "0.1.0"
edition = "2021"
publish = false

[dependencies]
bytemuck = { version = "=1.25.2", features = ["derive"] }
pollster = "=1.0.1"
wgpu = { version = "=30.0.1", features = ["spirv"] }
winit = "=0.30.13"
spirv-std = "=0.11.0"
