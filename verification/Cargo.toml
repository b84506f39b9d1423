[package]
name = "secureapis"
version = "0.1.0"
edition = "2021"
publish = false

[dependencies]
chrono = "*"
http = "*"
serde = { version = "*", features = ["derive"] }
serde_json = "*"
uuid = { version = "*", features = ["v4"] }
