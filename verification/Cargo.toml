[package]
name = "surface_session"
version = "0.1.0"
edition = "2021"
publish = false

[dependencies]
pollster = "0.3"
wgpu = { version = "0.19", default-features = false }
