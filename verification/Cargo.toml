[package]
name = "hive-metastore-cli"
version = "0.1.0"
edition = "2021"
publish = false

[dependencies]
anyhow = "1"
axum = "0.4"
serde = { version = "1", features = ["derive"] }
thiserror = "1"
thrift = "0.15"
tokio = { version = "1", features = ["full"] }
toml = "0.5"
tracing = "0.1"
tracing-subscriber = "0.3"
