[package]
name = "blockchain_core"
version = "0.1.0"
edition = "2021"
publish = false

[dependencies]
sha2 = "*"
rand = "*"
chrono = "*"
serde = { version = "*", features = ["derive"] }
serde_json = "*"
