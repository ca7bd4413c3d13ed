[package]
name = "domain"
version = "0.1.0"
edition = "2021"
publish = false

[dependencies]
uuid = { version = "1", features = ["v4", "v7", "std"] }
validator = "0.20"
argon2 = { version = "0.5", features = ["std"] }
opentelemetry = "0.27"
tracing-opentelemetry = "0.28"
tracing = "0.1"
rand = "0.9"
chrono = "0.4"
serde = { version = "1", features = ["derive"] }
serde_json = "1"
tokio = { version = "1", features = ["rt", "rt-multi-thread", "macros", "time", "sync"] }
tokio-util = "0.7"
