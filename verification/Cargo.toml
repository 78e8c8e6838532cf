[package]
name = "frame_timer"
version = "0.1.0"
edition = "2021"
publish = false

[dependencies]
piston2d-opengl_graphics = "*"
piston_window = "*"
