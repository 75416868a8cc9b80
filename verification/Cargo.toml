[package]
name = "richter_render"
version = "0.1.0"
edition = "2021"
publish = false

[dependencies]
cgmath = "0.18"
chrono = "0.4"
wgpu = "*"
