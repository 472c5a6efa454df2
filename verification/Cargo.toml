[package]
name = "seurat"
version = "0.1.0"
edition = "2021"
publish = false

[dependencies]
anyhow = "1"
bytemuck = { version = "1", features = ["derive"] }
cgmath = "0.18"
env_logger = "0.9"
half = { version = "1.8", features = ["bytemuck"] }
image = "0.23"
indexmap = "1"
pollster = "0.2"
rand = "0.8"
rayon = "1.5"
tobj = "3"
wgpu = "0.11"
winit = "0.25"
