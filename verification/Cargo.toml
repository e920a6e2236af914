[package]
name = "fps_game"
version = "0.1.0"
edition = "2021"
publish = false

[dependencies]
godot = { version = "=0.5.5", features = ["experimental-godot-api"] }
