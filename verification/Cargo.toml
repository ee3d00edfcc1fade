[package]
name = "smolvm"
version = "0.5.1"
edition = "2021"
publish = false

[dependencies]
axum = "=0.8.9"
clap = { version = "4", features = ["derive"] }
dirs = "5"
humantime = "=2.4.0"
ipnet = "=2.12.2"
libc = "=0.2.191"
parking_lot = "0.12"
rusqlite = { version = "0.32", features = ["bundled"] }
serde = { version = "1", features = ["derive"] }
serde_json = "1"
tokio = { version = "1", features = ["macros", "net", "rt-multi-thread", "signal", "sync", "time"] }
toml = "0.8"
tracing = "0.1"
tracing-subscriber = { version = "0.3", features = ["env-filter"] }
