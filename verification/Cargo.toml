[package]
name = "log_pipeline"
version = "0.1.0"
edition = "2021"
publish = false

[dependencies]
anyhow = "1"
axum = "0.7"
axum-server = "0.7"
bollard = "*"
bytes = "1"
chrono = "0.4"
dotenv = "0.15"
futures-util = "0.3"
lz4_flex = "0.11"
notify = "6"
rayon = "1"
rdkafka = "*"
reqwest = { version = "0.12", default-features = false, features = ["json"] }
rusoto_core = { version = "0.48", default-features = false, features = ["rustls"] }
rusoto_logs = { version = "0.48", default-features = false, features = ["rustls"] }
serde = { version = "1", features = ["derive"] }
serde_json = "1"
tokio = { version = "1", features = ["full"] }
tracing = "0.1"
tracing-subscriber = "0.3"
zstd = "0.13"
