[package]
name = "bevy_in_app"
version = "0.1.0"
edition = "2021"
publish = false

[dependencies]
bevy_platform = "=0.17.3"
bevy = { version = "=0.17.3", default-features = false, features = ["std", "bevy_window", "bevy_asset", "bevy_color", "bevy_log", "bevy_camera"] }
log = "=0.4.35"
