[package]
name = "glwrap"
version = "0.1.0"
edition = "2021"
publish = false

[dependencies]
failure = "0.1"
gl = "0.14"
nalgebra-glm = "*"
sdl2 = "0.34"
stb_image = "0.2"
