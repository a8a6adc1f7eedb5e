[package]
name = "object_store"
version = "0.1.0"
edition = "2021"
publish = false

[dependencies]
anyhow = "=1.0.104"
async-trait = "=0.1.92"
aws-config = "=1.8.18"
aws-sdk-s3 = "=1.152.0"
axum = "=0.7.9"
azure_core = "=0.21.0"
azure_storage = "=0.21.0"
azure_storage_blobs = "=0.21.0"
bytes = "=1.12.1"
chrono = { version = "=0.4.45", features = ["serde"] }
config = "=0.14.1"
futures = "=0.3.34"
google-cloud-storage = "=0.22.1"
hex = "=0.4.3"
mime_guess = "=2.0.5"
reqwest = { version = "=0.12.28", features = ["json"] }
serde = { version = "=1.0.229", features = ["derive"] }
serde_json = "=1.0.154"
sha2 = "=0.10.9"
thiserror = "=1.0.69"
time = "=0.3.55"
tokio = { version = "=1.54.1", features = ["full"] }
tokio-util = { version = "=0.7.20", features = ["io"] }
tower = "=0.4.13"
tower-http = { version = "=0.5.2", features = ["cors", "timeout", "trace"] }
tracing = "=0.1.44"
tracing-subscriber = { version = "=0.3.23", features = ["env-filter"] }
