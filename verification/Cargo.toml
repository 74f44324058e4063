[package]
name = "aether"
version = "0.1.0"
edition = "2021"
publish = false

[dependencies]
anyhow = "1"
async-trait = "0.1"
axum = "0.8"
chrono = "=0.4.45"
crossterm = { version = "=0.28.1", features = ["event-stream"] }
futures = "0.3"
indexmap = "=2.14.2"
rand = "0.9"
ratatui = "=0.29.0"
russh = "=0.65.0"
serde = { version = "1", features = ["derive"] }
serde_json = "1"
tokio = { version = "1", features = ["full"] }
tokio-util = { version = "0.7", features = ["rt"] }
toml = "0.8"
tracing = "0.1"
