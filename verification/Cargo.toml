[package]
name = "fastrust"
version = "0.3.0"
edition = "2021"
publish = false

[dependencies]
axum = "0.8"
indexmap = "2"
openapiv3 = "2"
schemars = "1"
serde = { version = "1", features = ["derive"] }
serde_json = "1"
tokio = { version = "1", features = ["full"] }
tower-http = { version = "0.6", features = ["normalize-path"] }
tracing = "0.1"
tracing-subscriber = "0.3"
