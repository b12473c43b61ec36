[package]
name = "render_core"
version = "0.1.0"
edition = "2021"
publish = false

[dependencies]
glutin = "0.32"
winit = "0.30"
