[package]
name = "rustcord"
version = "0.1.0"
edition = "2021"
publish = false

[dependencies]
dashmap = "6"
pyo3 = "0.22"
reqwest = { version = "0.12", default-features = false, features = ["rustls-tls"] }
serde = { version = "1", features = ["derive"] }
serde_json = "1"
tokio = { version = "1", features = ["rt-multi-thread", "time", "sync"] }
tracing = "0.1"
