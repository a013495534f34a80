[package]
name = "pecking_order"
version = "0.1.0"
edition = "2021"
publish = false

[dependencies]
bevy = { version = "=0.18.1", default-features = false, features = ["std", "bevy_state", "bevy_ui", "bevy_log", "bevy_window"] }
