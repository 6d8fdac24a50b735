[package]
name = "scene3d"
version = "0.1.0"
edition = "2021"
publish = false

[dependencies]
uuid = { version = "=1.27.0", features = ["v4"] }
glam = "=0.34.1"
bytemuck = "*"
