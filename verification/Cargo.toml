[package]
name = "order_service"
version = "0.1.0"
edition = "2021"
publish = false

[dependencies]
axum = "*"
serde = { version = "*", features = ["derive"] }
serde_json = "*"
sqlx = { version = "*", features = ["sqlite", "runtime-tokio"], default-features = false }
tokio = { version = "*", features = ["rt-multi-thread", "net", "macros"] }
