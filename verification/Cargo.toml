[package]
name = "avis"
version = "0.1.0"
edition = "2021"
publish = false

[dependencies]
bytemuck = { version = "1", features = ["derive"] }
cgmath = "0.18"
cpal = "0.13"
crossbeam-channel = "0.5"
log = "0.4"
pollster = "0.2"
rustfft = "6"
simple_logger = "2"
wgpu = "0.12"
winit = "0.26"
