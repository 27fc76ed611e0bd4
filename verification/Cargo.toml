[package]
name = "log_collector"
version = "0.1.0"
edition = "2021"
publish = false

[dependencies]
anyhow = "1"
bytes = "1"
chrono = { version = "0.4", default-features = false, features = ["std", "clock"] }
clap = { version = "4", features = ["derive"] }
notify = "6"
prost = "0.13"
prost-types = "0.13"
r2d2 = "0.8"
r2d2_sqlite = { version = "0.25", features = ["bundled"] }
rand = "0.8"
regex = "1"
rusqlite = { version = "0.32", features = ["bundled"] }
serde = { version = "1", features = ["derive"] }
serde_json = "1"
tokio = { version = "1", features = ["rt-multi-thread", "macros", "fs", "io-util", "sync", "time", "signal"] }
tokio-stream = "0.1"
tokio-util = "0.7"
toml = "0.8"
tonic = "0.12"
tracing = "0.1"
walkdir = "2"
