[package]
name = "eleven_barrage"
version = "0.1.0"
edition = "2021"
publish = false

[dependencies]
flate2 = "=1.1.10"
url = "=2.5.8"
serde = { version = "=1.0.229", features = ["derive"] }
serde_json = "=1.0.154"
tokio = { version = "=1.54.1", features = ["full"] }
tokio-tungstenite = { version = "=0.23.1", features = ["rustls-tls-webpki-roots"] }
futures-util = "=0.3.34"
reqwest = { version = "=0.12.28", default-features = false, features = ["json", "rustls-tls"] }
axum = "=0.7.9"
clap = { version = "=4.6.7", features = ["derive"] }
toml = "=0.8.23"
tracing = "=0.1.44"
tracing-subscriber = { version = "=0.3.23", features = ["env-filter", "json"] }
anyhow = "=1.0.104"
thiserror = "=1.0.69"
parking_lot = "=0.12.5"
base64 = "=0.22.1"
metrics = "=0.23.1"
metrics-exporter-prometheus = { version = "=0.15.3", default-features = false, features = ["http-listener"] }

[dev-dependencies]
prost = "=0.13.5"
