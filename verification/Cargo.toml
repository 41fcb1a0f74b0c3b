[package]
name = "walkthrough"
version = "0.1.0"
edition = "2021"
publish = false

[dependencies]
bevy = { version = "0.18.1", default-features = false, features = ["std", "bevy_pbr", "bevy_ui", "free_camera", "png"] }
