[package]
name = "strategies"
version = "0.1.0"
edition = "2021"
publish = false

[dependencies]
urandom = "*"
serde = { version = "1", features = ["derive"] }
enum-display-derive = "*"
