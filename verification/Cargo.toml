[package]
name = "salamander_rain"
version = "0.1.0"
edition = "2021"
publish = false

[dependencies]
bevy = { version = "=0.18.1", default-features = false, features = ["bevy_sprite", "bevy_ui", "bevy_text", "bevy_state", "bevy_window", "bevy_asset", "bevy_camera", "bevy_color", "bevy_log", "keyboard", "std"] }
