[package]
name = "notary_prf"
version = "0.1.0"
edition = "2021"
publish = false

[dependencies]
p256 = { version = "*", features = ["ecdsa"] }
uuid = { version = "*", features = ["v4"] }
chrono = "*"
serde = { version = "*", features = ["derive"] }
serde_json = "*"
tokio = { version = "*", features = ["full"] }
