[package]
name = "pool_status"
version = "0.1.0"
edition = "2021"
publish = false

[dependencies]
chrono = "*"
dashmap = "*"
serde = { version = "*", features = ["derive"] }
tokio = { version = "*", features = ["rt", "sync", "time", "macros"] }
tracing = "*"
uuid = { version = "*", features = ["v4"] }
