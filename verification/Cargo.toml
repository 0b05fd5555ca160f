[package]
name = "didcomm_module"
version = "0.1.0"
edition = "2021"
publish = false

[dependencies]
didcomm = "*"
serde_json = "*"
uuid = { version = "*", features = ["v4"] }
chrono = "*"
serde = { version = "*", features = ["derive"] }
