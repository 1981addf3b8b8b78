[package]
name = "gl_triangle"
version = "0.1.0"
edition = "2021"
publish = false

[dependencies]
glfw = "=0.54.0"
gl = "=0.14.0"
