[package]
name = "vk_bootstrap"
version = "0.1.0"
edition = "2021"
publish = false

[dependencies]
ash = "0.32"
winit = { version = "0.25", default-features = false, features = ["x11"] }
