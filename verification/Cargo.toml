[package]
name = "hellai_core"
version = "0.1.0"
edition = "2021"
publish = false

[dependencies]
rand = "0.8"
jsonwebtoken = "*"
serde = { version = "*", features = ["derive"] }
argon2 = "*"
