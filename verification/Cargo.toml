[package]
name = "bevy_pigeon"
version = "0.1.0"
edition = "2021"
publish = false

[dependencies]
carrier-pigeon = "*"
serde = { version = "*", features = ["derive"] }
