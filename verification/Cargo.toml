[package]
name = "bevy_vrm1"
version = "0.1.0"
edition = "2021"
publish = false

[dependencies]
anyhow = "=1.0.104"
bevy = { version = "=0.16.1", default-features = false, features = ["std", "bevy_animation", "bevy_asset", "bevy_gltf", "bevy_scene", "bevy_render", "bevy_window"] }
serde = { version = "=1.0.229", features = ["derive"] }
serde_json = "=1.0.154"
