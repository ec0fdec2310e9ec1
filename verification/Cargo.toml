[package]
name = "geodesic_mesh"
version = "0.1.0"
edition = "2021"
publish = false

[dependencies]
nalgebra-glm = "*"
lerp = "*"
gl = "*"
