[package]
name = "gl_nt"
version = "1.0.0"
edition = "2021"
publish = false

[dependencies]
gl = "*"
glfw = "*"
image = "*"
