[package]
name = "fps_camera"
version = "0.1.0"
edition = "2021"
publish = false

[dependencies]
cgmath = "0.18"
miniquad = "0.4"
