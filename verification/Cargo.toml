[package]
name = "saucepan"
version = "0.1.0"
edition = "2021"
publish = false

[dependencies]
argon2 = "*"
rand = "*"
serde = { version = "*", features = ["derive"] }
toml = "*"
