[package]
name = "rhythm_core"
version = "0.1.0"
edition = "2021"
publish = false

[dependencies]
bevy = { version = "0.9", default-features = false }
serde = { version = "1", features = ["derive"] }
serde_yaml = "0.9"
itertools = "0.10"
