[package]
name = "raftkv"
version = "0.1.0"
edition = "2021"
publish = false

[dependencies]
postcard = { version = "1", features = ["use-std"] }
serde = { version = "1", features = ["derive"] }
zstd = "*"
crc-fast = "*"
base64 = "*"
uuid = { version = "1", features = ["v4"] }
tokio = { version = "1", features = ["full"] }
clap = { version = "4", features = ["derive", "env"] }
tracing = "*"
tracing-subscriber = { version = "*", features = ["env-filter"] }
metrics = "*"
metrics-exporter-prometheus = { version = "*", default-features = false }
openraft = { version = "*", features = ["serde"] }
tonic = "*"
axum = "*"
tower-http = { version = "*", features = ["cors", "trace"] }
tokio-tar = "*"
tokio-stream = "*"
async-trait = "*"
anyhow = "*"
serde_json = "*"
toml = "*"
surrealkv = "*"
