[package]
name = "bevy_game_dev"
version = "0.1.0"
edition = "2021"
publish = false

[dependencies]
anyhow = "1"
bevy = { version = "0.14", default-features = false }
bevy_ecs = "0.14"
pyo3 = "0.20"
serde = { version = "1", features = ["derive"] }
serde_json = "1"

[dev-dependencies]
toml = "0.8"
