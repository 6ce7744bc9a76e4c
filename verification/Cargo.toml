[package]
name = "bitcoin_backend"
version = "0.1.0"
edition = "2021"
publish = false

[dependencies]
serde = { version = "*", features = ["derive"] }
serde_json = "*"
base64 = "*"
uuid = { version = "*", features = ["v4"] }
chrono = "*"
reqwest = { version = "*", default-features = false, features = ["json"] }
tokio = { version = "*", features = ["rt-multi-thread", "macros", "net", "signal", "sync"] }
axum = "*"
tower = "*"
tower-http = { version = "*", features = ["cors", "trace"] }
dotenvy = "*"
