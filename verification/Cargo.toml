[package]
name = "text_editor"
version = "0.1.0"
edition = "2021"
publish = false

[dependencies]
ropey = "1"
winit = "0.30"
wgpu = "*"
glyphon = "*"
pollster = "*"
cosmic-text = "*"
