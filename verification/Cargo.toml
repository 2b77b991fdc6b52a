[package]
name = "maplet"
version = "0.1.0"
edition = "2021"
publish = false

[dependencies]
agent-client-protocol = { version = "=5.0.0", features = ["process"] }
anyhow = "=1.0.104"
axum = "=0.8.9"
clap = { version = "=4.6.7", features = ["derive"] }
crossterm = { version = "=0.29.0", features = ["event-stream"] }
dirs = "=7.0.0"
futures-util = "=0.3.34"
notify = "=8.2.1"
ratatui = { version = "=0.30.2", features = ["unstable-rendered-line-info"] }
ratatui-textarea = "=0.9.4"
reqwest = { version = "=0.13.5", default-features = false, features = ["json", "stream"] }
serde = { version = "=1.0.229", features = ["derive"] }
serde_json = "=1.0.154"
tokio = { version = "=1.54.1", features = ["full"] }
tokio-util = "=0.7.20"
toml = "=1.1.8"
tracing = "=0.1.44"
tracing-appender = "=0.2.5"
tracing-subscriber = { version = "=0.3.23", features = ["env-filter"] }
tui-markdown = "=0.3.13"
uuid = { version = "=1.29.0", features = ["v4"] }
