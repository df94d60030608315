[package]
name = "tft_price"
version = "0.1.0"
edition = "2021"
publish = false

[dependencies]
substrate-fixed = "*"
serde = { version = "1", features = ["derive"] }
serde_json = "1"
