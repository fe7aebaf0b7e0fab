[package]
name = "lost_metrics"
version = "0.1.0"
edition = "2021"
publish = false

[dependencies]
ipnetwork = "=0.21.1"
serde = { version = "=1.0.229", features = ["derive"] }
serde_json = "=1.0.151"
tokio = { version = "=1.53.2", features = ["rt-multi-thread", "time", "sync", "fs", "macros"] }
anyhow = "=1.0.104"
sysinfo = "=0.39.6"
reqwest = { version = "=0.12.28", default-features = false, features = ["rustls-tls"] }
chrono = { version = "=0.4.45", features = ["serde"] }
rand = "=0.10.3"
uuid = { version = "=1.27.0", features = ["v7", "serde"] }
semver = { version = "=1.0.28", features = ["serde"] }
thiserror = "=2.0.21"
log = "=0.4.34"
