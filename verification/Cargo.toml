[package]
name = "rustecom"
version = "0.1.0"
edition = "2021"
publish = false

[dependencies]
anyhow = "=1.0.104"
axum = "=0.7.9"
chrono = "=0.4.45"
dotenvy = "=0.15.7"
serde = { version = "=1.0.229", features = ["derive"] }
serde_json = "=1.0.154"
sqlx = { version = "=0.7.4", default-features = false, features = ["sqlite", "runtime-tokio", "migrate"] }
tokio = { version = "=1.54.1", features = ["rt-multi-thread", "macros", "net", "fs", "io-util", "signal", "sync"] }
uuid = { version = "=1.29.0", features = ["v4", "serde"] }
