[package]
name = "log_agent"
version = "0.1.0"
edition = "2021"
publish = false

[dependencies]
arboard = "=3.6.1"
chrono = "=0.4.45"
clap = { version = "=4.5.61", features = ["derive"] }
dirs = "=6.0.0"
owo-colors = "*"
ratatui = "=0.29.0"
regex = "=1.11.3"
serde = { version = "=1.0.229", features = ["derive"] }
serde_json = "=1.0.151"
tokio = { version = "=1.53.2", features = ["io-util", "macros", "process", "rt-multi-thread", "sync", "time", "net"] }
toml = "=0.8.23"
