[package]
name = "eventfold_es"
version = "0.1.0"
edition = "2021"
publish = false

[dependencies]
serde = { version = "1", features = ["derive"] }
serde_json = "1"
thiserror = "*"
tokio = { version = "1", features = ["rt", "rt-multi-thread", "sync", "time", "macros"] }
tokio-stream = "*"
tonic = "*"
tracing = "*"
uuid = { version = "1", features = ["v4", "v5"] }

[dev-dependencies]
tempfile = "*"
