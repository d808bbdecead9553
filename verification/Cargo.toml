[package]
name = "glcore"
version = "0.1.0"
edition = "2021"
publish = false

[dependencies]
image = "0.24"
gl = "0.14"
winit = "0.28"
glutin = "0.30"
glutin-winit = "0.3"
raw-window-handle = "0.5"
nalgebra-glm = "0.18"
