[package]
name = "campaign_consumer"
version = "0.1.0"
edition = "2021"
publish = false

[dependencies]
chrono = { version = "=0.4.45", features = ["serde"] }
dotenv = "=0.15.0"
futures-util = "=0.3.34"
lapin = { version = "=1.10.0", default-features = false }
mongodb = "=2.8.2"
redis = { version = "=0.23.5", features = ["tokio-comp"] }
reqwest = { version = "=0.11.27", default-features = false, features = ["rustls-tls"] }
serde = { version = "=1.0.229", features = ["derive"] }
serde_json = "=1.0.154"
tokio = { version = "=1.54.1", features = ["macros", "rt-multi-thread", "sync", "time"] }
