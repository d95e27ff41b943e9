[package]
name = "brics"
version = "0.1.0"
edition = "2021"
publish = false

[dependencies]
wgpu = "0.6"
wgpu-types = "0.6"
cgmath = "0.17"
winit = "0.22"
futures = "0.3"
wgpu-subscriber = "0.1"
