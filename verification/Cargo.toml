[package]
name = "fiberlamp"
version = "0.1.0"
edition = "2021"
publish = false

[dependencies]
bytemuck = { version = "1", features = ["derive"] }
clap = { version = "4", features = ["derive"] }
env_logger = "0.11"
glam = "0.29"
log = "0.4"
pollster = "0.4"
rand = "0.8"
raw-window-handle = "0.6"
wgpu = "24"
winit = "0.30"
