[package]
name = "rsweb"
version = "0.1.0"
edition = "2021"
publish = false

[dependencies]
anyhow = "=1.0.104"
axum = { version = "=0.8.9", features = ["ws"] }
clap = { version = "=4.6.7", features = ["derive"] }
daemonize = "=0.5.0"
futures = "=0.3.34"
pin-project-lite = "=0.2.17"
rust-embed = { version = "=8.13.0", features = ["interpolate-folder-path"] }
serde = { version = "=1.0.229", features = ["derive"] }
serde_json = "=1.0.154"
tempfile = "=3.27.0"
thiserror = "=2.0.21"
tokio = { version = "=1.54.1", features = ["full"] }
tokio-stream = "=0.1.19"
tower = "=0.5.3"
tower-http = { version = "=0.6.11", features = ["limit", "timeout"] }
tracing = "=0.1.44"
tracing-subscriber = "=0.3.23"
