[package]
name = "poh"
version = "0.1.0"
edition = "2021"
publish = false

[dependencies]
blake3 = "*"
ring = "*"
hex = "*"
serde = { version = "*", features = ["derive"] }
serde_json = "*"
