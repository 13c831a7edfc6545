[package]
name = "hoard"
version = "0.1.0"
edition = "2021"
publish = false

[dependencies]
chrono = "0.4"
env_logger = "0.11"
log = "0.4"
reqwest = { version = "0.12", features = ["blocking", "json"] }
rusqlite = "0.32"
serde = { version = "1", features = ["derive"] }
serde_json = "1"
toml = "0.8"
