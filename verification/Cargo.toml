[package]
name = "ray_marching_material"
version = "0.1.0"
edition = "2021"
publish = false

[dependencies]
bevy = { version = "=0.11.3", default-features = false }
