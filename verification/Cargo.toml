[package]
name = "loot_core"
version = "0.1.0"
edition = "2021"
publish = false

[dependencies]
godot = "*"
uuid = { version = "*", features = ["v4"] }
serde = { version = "*", features = ["derive"] }
