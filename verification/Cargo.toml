[package]
name = "nextday"
version = "0.1.0"
edition = "2021"
publish = false

[dependencies]
chrono = "=0.4.45"
chrono-tz = { version = "=0.10.4", features = ["case-insensitive"] }
axum = "=0.8.9"
tokio = { version = "=1.53.2", features = ["rt-multi-thread", "macros", "net"] }
serde = { version = "=1.0.229", features = ["derive"] }
serde_json = "=1.0.151"
anyhow = "=1.0.104"
tracing = "=0.1.44"
tracing-subscriber = "=0.3.23"
