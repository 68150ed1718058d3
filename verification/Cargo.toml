[package]
name = "gltut"
version = "0.1.0"
edition = "2021"
publish = false

[dependencies]
cgmath = "=0.18.0"
gl = "=0.14.0"
glfw = { version = "=0.51.0", default-features = false }
