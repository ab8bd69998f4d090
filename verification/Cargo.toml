[package]
name = "game_of_life"
version = "0.1.0"
edition = "2021"
publish = false

[dependencies]
wgpu = "0.12"
winit = "0.26"
glam = "0.20"
bytemuck = "1"
async-std = { version = "1", features = ["attributes"] }
env_logger = "0.9"
