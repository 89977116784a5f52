[package]
name = "voxel_benchmark"
version = "0.1.0"
edition = "2021"
publish = false

[dependencies]
rand = "0.8"
glium = "0.32"
glam = "0.24"
image = "0.24"
anyhow = "1"
log = "0.4"
