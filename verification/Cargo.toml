[package]
name = "eye_core"
version = "0.1.0"
edition = "2021"
publish = false

[dependencies]
anyhow = "1"
axum = { version = "0.7", features = ["multipart"] }
base64 = "0.22"
chrono = "0.4"
image = { version = "0.25", default-features = false, features = ["png", "jpeg"] }
oauth2 = "4"
rand = "0.8"
reqwest = { version = "0.11", features = ["multipart", "json"] }
serde = { version = "1", features = ["derive"] }
serde_json = "1"
tokio = { version = "1", features = ["rt-multi-thread", "macros", "sync", "time", "fs", "signal"] }
tracing = "0.1"
tracing-subscriber = { version = "0.3", features = ["env-filter"] }
xcap = "*"
