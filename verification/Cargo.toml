[package]
name = "nanocraft"
version = "0.1.0"
edition = "2021"
publish = false

[dependencies]
femtovg = "*"
gl = "*"
glfw = "*"
image = "*"
include_dir = "*"
nalgebra = "*"
