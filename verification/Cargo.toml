[package]
name = "mpp-session-mvx"
version = "0.1.0"
edition = "2021"
publish = false

[dependencies]
multiversx-sc = "*"
multiversx-sc-scenario = "*"
multiversx-sc-snippets = "*"
serde = { version = "*", features = ["derive"] }
toml = "*"
env_logger = "*"

[dev-dependencies]
ed25519-dalek = "*"
