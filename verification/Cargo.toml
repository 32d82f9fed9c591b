[package]
name = "sidescroller"
version = "0.1.0"
edition = "2021"
publish = false

[dependencies]
vec2d = "*"
sdl2 = "*"
