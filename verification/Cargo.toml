[package]
name = "proxid"
version = "0.1.0"
edition = "2021"
publish = false

[dependencies]
base64 = "0.22"
url = { version = "2", features = ["serde"] }
anyhow = "1"
axum = { version = "0.8", features = ["multipart"] }
bytes = "1"
figment = { version = "0.10", features = ["toml", "env"] }
reqwest = { version = "0.12", default-features = false, features = ["json", "rustls-tls"] }
secrecy = { version = "0.10", features = ["serde"] }
serde = { version = "1", features = ["derive"] }
serde_json = "1"
tempfile = "3"
thiserror = "2"
tokio = { version = "1", features = ["macros", "rt-multi-thread", "net", "signal", "process", "fs"] }
tower-http = { version = "0.6", features = ["trace"] }
tracing = "0.1"
tracing-subscriber = { version = "0.3", features = ["env-filter"] }
