[package]
name = "ht_mcp"
version = "0.1.0"
edition = "2021"
publish = false

[dependencies]
uuid = { version = "*", features = ["v4"] }
serde_json = "*"
serde = { version = "*", features = ["derive"] }
tokio = { version = "*", features = ["full"] }
clap = { version = "*", features = ["derive"] }
tracing = "*"
tracing-subscriber = "*"
anyhow = "*"
thiserror = "*"
chrono = "*"
axum = { version = "*", features = ["ws"] }
tower-http = { version = "*", features = ["cors"] }
