[package]
name = "marching_cubes"
version = "0.1.0"
edition = "2021"
publish = false

[dependencies]
once_cell = "*"
