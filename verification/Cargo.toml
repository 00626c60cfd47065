[package]
name = "bevy_stutter"
version = "0.1.0"
edition = "2021"
publish = false

[dependencies]
fastrand = "1"
instant = "0.1"
bevy = { version = "0.8", default-features = false, features = ["bevy_render"] }
