[package]
name = "cognos-hal"
version = "0.1.0"
edition = "2021"
publish = false

[dependencies]
chrono = { version = "=0.4.45", features = ["serde"] }
dirs = "=5.0.1"
env_logger = "=0.11.11"
hex = "=0.4.3"
log = "=0.4.35"
regex = "=1.13.1"
serde = { version = "=1.0.229", features = ["derive"] }
serde_json = "=1.0.154"
sha2 = "=0.10.9"
thiserror = "=1.0.69"
tokio = { version = "=1.54.1", features = ["rt-multi-thread", "macros", "net", "io-util", "sync", "time"] }
uuid = { version = "=1.29.0", features = ["v4", "serde"] }
