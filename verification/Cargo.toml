[package]
name = "tilegame"
version = "0.1.0"
edition = "2021"
publish = false

[dependencies]
gl = "=0.14.0"
glfw = { version = "=0.45.0", default-features = false }
image = { version = "=0.24.9", default-features = false, features = ["png", "jpeg"] }
rand = "=0.8.8"
cgmath = "=0.18.0"
