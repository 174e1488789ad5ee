[package]
name = "telegram_bot_seller"
version = "0.1.0"
edition = "2021"
publish = false

[dependencies]
base64 = "=0.22.1"
urlencoding = "=2.1.3"
serde = { version = "=1.0.229", features = ["derive"] }
serde_json = "=1.0.154"
tokio = { version = "=1.54.1", features = ["full"] }
axum = { version = "=0.8.9", features = ["ws"] }
reqwest = { version = "=0.12.28", default-features = false, features = ["json", "rustls-tls"] }
rusqlite = { version = "=0.32.1", features = ["bundled"] }
deadpool-sqlite = { version = "=0.9.0", features = ["rt_tokio_1"] }
thiserror = "=2.0.21"
anyhow = "=1.0.104"
dotenvy = "=0.15.7"
tracing = "=0.1.44"
tracing-subscriber = { version = "=0.3.23", features = ["env-filter"] }
