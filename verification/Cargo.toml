[package]
name = "token_cache"
version = "0.1.0"
edition = "2021"
publish = false

[dependencies]
jwt = "*"
serde = { version = "*", features = ["derive"] }
serde_json = "*"
