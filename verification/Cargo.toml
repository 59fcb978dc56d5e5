[package]
name = "evo_thing"
version = "0.1.0"
edition = "2021"
publish = false

[dependencies]
rand = "0.4"
palette = "*"
piston = "*"
piston2d-graphics = "*"
image = { version = "*", default-features = false }
pistoncore-glutin_window = "*"
piston2d-opengl_graphics = "*"
piston-texture = "*"
option-filter = "*"
