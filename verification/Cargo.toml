[package]
name = "virtual_joystick"
version = "0.1.0"
edition = "2021"
publish = false

[dependencies]
bevy = { version = "0.17", default-features = false, features = ["bevy_ui", "bevy_window"] }
variadics_please = "1"
