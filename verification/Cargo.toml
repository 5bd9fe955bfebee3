[package]
name = "gltf-linux-preview"
version = "0.1.0"
edition = "2021"
publish = false

[dependencies]
bevy_obj = { version = "=0.19.0", default-features = false }
