[package]
name = "up2b"
version = "0.1.0"
edition = "2021"
publish = false

[dependencies]
base64 = "*"
regex = "*"
serde = { version = "*", features = ["derive"] }
serde_json = "*"
toml = "*"
