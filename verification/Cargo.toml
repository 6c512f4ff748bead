[package]
name = "space_guardian"
version = "0.1.0"
edition = "2021"
publish = false

[dependencies]
bevy = { version = "=0.9.1", default-features = false, features = ["bevy_asset", "bevy_scene", "bevy_winit", "bevy_core_pipeline", "bevy_render", "bevy_sprite", "bevy_text", "bevy_ui", "png", "x11"] }
bevy_rapier2d = { version = "=0.19.0", default-features = false, features = ["dim2"] }
bevy_hanabi = { version = "=0.5.3", default-features = false, features = ["2d"] }
rand = "=0.8.8"
