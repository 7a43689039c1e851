[package]
name = "daemon_gateway"
version = "0.1.0"
edition = "2021"
publish = false

[dependencies]
axum = "=0.6.20"
axum-auth = "=0.4.1"
clap = { version = "=4.6.7", features = ["derive"] }
serde = "1"
serde_json = "=1.0.154"
tokio = { version = "=1.54.1", features = ["macros", "rt-multi-thread", "sync"] }
