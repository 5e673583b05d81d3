[package]
name = "shadermake"
version = "0.1.0"
edition = "2021"
publish = false

[dependencies]
naga = { version = "*", features = ["wgsl-in", "spv-out", "glsl-out"] }
bytemuck = "*"
shaderc = "*"
rayon = "*"
serde = { version = "*", features = ["derive"] }
toml = "*"
anyhow = "*"
argh = "*"
colored = "*"
