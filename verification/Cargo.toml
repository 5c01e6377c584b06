[package]
name = "learnopengl"
version = "0.1.0"
edition = "2021"
publish = false

[dependencies]
image = { version = "=0.24.9", default-features = false, features = ["png", "jpeg"] }
gl = "=0.14.0"
glfw = { version = "=0.51.0", default-features = false }
nalgebra-glm = "=0.18.0"
clap = "=3.2.25"
