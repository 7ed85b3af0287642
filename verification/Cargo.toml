[package]
name = "spaces"
version = "0.1.0"
edition = "2021"
publish = false

[dependencies]
anyhow = "=1.0.104"
colored = "=3.1.1"
derive-new = "=0.7.0"
image = { version = "=0.25.10", default-features = false, features = ["png"] }
imgui = "=0.12.0"
imgui-wgpu = "=0.25.0"
imgui-winit-support = "=0.13.0"
mint = "=0.5.9"
pollster = "=0.4.0"
serde = { version = "=1.0.229", features = ["derive"] }
tracing = "=0.1.44"
tracing-subscriber = "=0.3.23"
wgpu = "=25.0.2"
winit = "=0.30.13"
