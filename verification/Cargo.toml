[package]
name = "voice_agent"
version = "0.1.0"
edition = "2021"
publish = false

[dependencies]
actix = "0.13"
actix-web = "4"
actix-web-actors = "4"
actix-ws = "0.3"
anyhow = "1"
async-stream = "0.3"
async-trait = "0.1"
audio-codec-algorithms = "*"
base64 = "0.22"
cpal = "0.15"
futures-util = "0.3"
once_cell = "1"
reqwest = { version = "0.12", default-features = false, features = ["json", "stream", "http2", "rustls-tls"] }
rubato = "0.16"
serde = { version = "1", features = ["derive"] }
serde_json = "1"
serde_urlencoded = "0.7"
thiserror = "1"
tokio = { version = "1", features = ["full"] }
tokio-stream = "0.1"
tracing = "0.1"
tracing-subscriber = { version = "0.3", features = ["env-filter", "chrono"] }
