[package]
name = "fortitude"
version = "0.1.0"
edition = "2021"
publish = false

[dependencies]
chrono = { version = "=0.4.45", features = ["serde"] }
uuid = { version = "=1.29.0", features = ["v4", "serde"] }
rand = "=0.8.8"
serde = { version = "=1.0.229", features = ["derive"] }
serde_json = "=1.0.154"
thiserror = "=1.0.69"
tracing = "=0.1.44"
tokio = { version = "=1.54.1", features = ["rt-multi-thread", "macros", "sync", "time", "fs", "io-util"] }
notify = "=6.1.1"
notify-debouncer-mini = "=0.4.1"
reqwest = { version = "=0.12.28", default-features = false, features = ["json"] }
regex = "=1.13.1"
serde_yaml = "0.9"
toml = "=0.8.23"
