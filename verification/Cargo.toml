[package]
name = "ginger_shared_rs"
version = "0.1.0"
edition = "2021"
publish = false

[dependencies]
jsonwebtoken = "9"
serde_json = "1"
serde = { version = "1", features = ["derive"] }
toml = "*"
dirs = "*"
clap = { version = "4", features = ["derive"] }
