[package]
name = "gdom"
version = "0.1.0"
edition = "2021"
publish = false

[dependencies]
url = "2"
semver = "1"
serde = { version = "1", features = ["derive"] }
serde_json = "1"
tracing-subscriber = { version = "0.3", features = ["env-filter"] }
tracing-appender = "0.2"
tokio = { version = "1", features = ["rt", "sync", "time", "macros"] }
open = "5"
