[package]
name = "marching_cubes"
version = "0.1.0"
edition = "2021"
publish = false

[dependencies]
bevy = { version = "=0.8.1", default-features = false, features = ["render", "bevy_winit", "x11"] }
bevy_flycam = "=0.8.1"
