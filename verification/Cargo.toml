[package]
name = "monitoring_system"
version = "0.1.0"
edition = "2021"
publish = false

[dependencies]
anyhow = "1"
gethostname = "0.4"
serde = { version = "1", features = ["derive"] }
serde_json = "1"
systemstat = "0.2"
tokio = { version = "1", features = ["rt-multi-thread", "macros", "net", "io-util", "sync", "time"] }
