[package]
name = "oscuras"
version = "0.1.0"
edition = "2021"
publish = false

[dependencies]
bitflags = "1"
bytemuck = { version = "1", features = ["derive"] }
cgmath = "0.18"
env_logger = "0.8"
futures = "0.3"
wgpu = "0.7"
winit = "0.24"
