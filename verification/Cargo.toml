[package]
name = "fraud_detection"
version = "0.1.0"
edition = "2021"
publish = false

[dependencies]
rand = "0.9"
uuid = { version = "1", features = ["v4"] }
tokio = { version = "1", features = ["rt", "macros", "time", "signal"] }
sqlx = { version = "0.8", default-features = false, features = ["runtime-tokio", "sqlite"] }
