[package]
name = "elevator_simulator"
version = "0.1.0"
edition = "2021"
publish = false

[dependencies]
bevy = { version = "0.17", default-features = false, features = ["bevy_pbr", "bevy_ui", "bevy_text", "bevy_scene", "bevy_state", "bevy_window", "bevy_asset", "std"] }
avian3d = "0.4"
