[package]
name = "dictation_core"
version = "0.1.0"
edition = "2021"
publish = false

[dependencies]
uuid = { version = "1", features = ["v4"] }
cpal = "*"
chrono = "*"
serde = { version = "1", features = ["derive"] }
