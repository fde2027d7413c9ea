[package]
name = "ball_simulation"
version = "0.1.0"
edition = "2021"
publish = false

[dependencies]
bytemuck = { version = "=1.25.2", features = ["derive"] }
pollster = "=0.4.0"
rand = "=0.8.8"
wgpu = "=26.0.1"
winit = "=0.30.13"
