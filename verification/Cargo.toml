[package]
name = "render_gl"
version = "0.1.0"
edition = "2021"
publish = false

[dependencies]
gl = "=0.14.0"
sdl2 = "=0.34.5"
notify = "=4.0.18"
failure = "=0.1.8"
