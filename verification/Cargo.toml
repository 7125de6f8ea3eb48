[package]
name = "processing"
version = "0.1.0"
edition = "2021"
publish = false

[dependencies]
anyhow = "*"
glium = "0.34"
image = "*"
thiserror = "*"
winit = "0.29"
