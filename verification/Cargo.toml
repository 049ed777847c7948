[package]
name = "platformer"
version = "0.1.0"
edition = "2021"
publish = false

[dependencies]
avian2d = "0.2"
bevy = { version = "0.15", default-features = false, features = ["bevy_asset", "bevy_color", "bevy_core_pipeline", "bevy_render", "bevy_sprite", "bevy_window", "multi_threaded", "png"] }
