[package]
name = "egui_glfw"
version = "0.1.0"
edition = "2021"
publish = false

[dependencies]
egui = "0.26"
gl = "0.14"
glfw = "*"
nalgebra-glm = "*"
