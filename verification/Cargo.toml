[package]
name = "bevy_smooth_pixel_camera"
version = "0.1.0"
edition = "2021"
publish = false

[dependencies]
bevy = { version = "0.13", default-features = false }
