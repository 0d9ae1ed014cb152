[package]
name = "file_indexer"
version = "0.1.0"
edition = "2021"
publish = false

[dependencies]
uuid = { version = "=1.27.0", features = ["v5"] }
chrono = { version = "=0.4.45", features = ["serde"] }
ignore = "=0.4.33"
serde = { version = "=1.0.229", features = ["derive"] }
serde_json = "=1.0.151"
toml = "=1.1.6"
tokio = { version = "=1.53.2", features = ["full"] }
tokio-cron-scheduler = { version = "=0.15.1", features = ["signal"] }
meilisearch-sdk = "=0.33.0"
axum = "=0.8.9"
hyper = "=1.11.1"
hyper-util = { version = "=0.1.21", features = ["client-legacy", "http1", "tokio"] }
tower-http = { version = "=0.6.11", features = ["fs"] }
futures = "=0.3.34"
