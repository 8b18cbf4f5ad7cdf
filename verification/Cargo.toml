[package]
name = "login_helper"
version = "0.1.0"
edition = "2021"
publish = false

[dependencies]
chrono = "0.4"
encoding_rs = "0.8"
serde = { version = "1", features = ["derive"] }
toml = "0.8"
ts-rs = "*"
