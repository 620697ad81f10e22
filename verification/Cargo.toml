[package]
name = "sdkwork-inventory"
version = "0.1.0"
edition = "2021"
publish = false

[dependencies]
serde_json = "1"
serde = { version = "1", features = ["derive"] }
axum = "0.8"
tokio = { version = "1", features = ["rt-multi-thread", "macros", "net"] }
sqlx = { version = "0.8", default-features = false, features = ["runtime-tokio", "sqlite", "postgres"] }
tower-http = { version = "0.6", features = ["cors"] }
tracing-subscriber = "0.3"
dotenvy = "0.15"
