[package]
name = "netprobe"
version = "0.1.0"
edition = "2021"
publish = false

[dependencies]
anyhow = "=1.0.104"
async-process = "=2.5.0"
base64 = "=0.22.1"
cfspeedtest = "=2.2.2"
cookie = "=0.18.2"
futures = "=0.3.34"
metrics = "=0.24.6"
metrics-exporter-prometheus = "=0.18.3"
reqwest = { version = "=0.12.28", default-features = false, features = ["blocking", "json", "rustls-tls"] }
serde_json = "=1.0.154"
tokio = { version = "=1.54.1", features = ["full"] }
tracing = "=0.1.44"
tracing-subscriber = "=0.3.23"
