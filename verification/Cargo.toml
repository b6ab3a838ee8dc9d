[package]
name = "ferrous_gl"
version = "0.1.0"
edition = "2021"
publish = false

[dependencies]
gl = "0.14"
glam = "*"
glutin = "0.32"
glutin-winit = "0.5"
raw-window-handle = "0.6"
winit = "0.30"
