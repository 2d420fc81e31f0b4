[package]
name = "playferrous"
version = "0.1.0"
edition = "2021"
publish = false

[dependencies]
anyhow = "*"
dashmap = "*"
serde = { version = "*", features = ["derive"] }
serde_json = "*"
tokio = { version = "*", features = ["full"] }
toml = "*"
