[package]
name = "phx_channels"
version = "0.1.0"
edition = "2021"
publish = false

[dependencies]
nanoid = "0.4"
serde_json = "1"
tokio = { version = "1", features = ["sync", "rt", "macros"] }
axum = { version = "*", features = ["ws"] }
futures = "0.3"
tracing = "0.1"
