[package]
name = "mars"
version = "0.1.0"
edition = "2021"
publish = false

[dependencies]
find_folder = "=0.3.0"
lazy_static = "=1.5.1"
piston = "=1.0.0"
piston2d-graphics = "=0.45.0"
piston2d-opengl_graphics = "=0.89.0"
pistoncore-glutin_window = "=0.73.2"
rodio = "=0.11.0"
