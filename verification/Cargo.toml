[package]
name = "guessing_game"
version = "0.1.0"
edition = "2021"
publish = false

[dependencies]
rand = "0.8"
uuid = { version = "1", features = ["v4", "serde"] }
serde = { version = "1", features = ["derive"] }
serde_derive = "1"
lambda_runtime = "0.2"
log = "0.4"
simple_logger = "*"
