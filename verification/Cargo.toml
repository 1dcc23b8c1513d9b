[package]
name = "ventura"
version = "0.1.0"
edition = "2021"
publish = false

[dependencies]
wgpu = "25"
glam = { version = "*", features = ["bytemuck"] }
bytemuck = "1"
hecs = "*"
image = "*"
winit = "0.30"
pollster = "*"
tracing = "*"
tracing-subscriber = "*"
