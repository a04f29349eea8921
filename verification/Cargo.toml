[package]
name = "shaded_quad"
version = "0.1.0"
edition = "2021"
publish = false

[dependencies]
anyhow = "1"
pollster = "0.3"
tracing = "0.1"
tracing-subscriber = "0.3"
wgpu = { version = "25", default-features = false, features = ["wgsl"] }
winit = { version = "0.30", default-features = false, features = ["x11", "rwh_06"] }
