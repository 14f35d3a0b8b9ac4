[package]
name = "glados"
version = "0.1.0"
edition = "2021"
publish = false

[dependencies]
chrono = "0.4"
ethereum-types = "*"
discv5 = "*"
anyhow = "1"
serde = { version = "1", features = ["derive"] }
serde_json = "1"
thiserror = "*"
tracing = "0.1"
env_logger = "*"
clap = { version = "4", features = ["derive"] }
tokio = { version = "1", features = ["full"] }
axum = "0.6"
sea-orm = { version = "1", default-features = false, features = ["macros"] }
jsonrpc = "*"
