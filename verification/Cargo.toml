[package]
name = "csci_courses"
version = "0.1.0"
edition = "2021"
publish = false

[dependencies]
uuid = { version = "*", features = ["v4"] }
tokio = { version = "*", features = ["full"] }
axum = "*"
serde = { version = "*", features = ["derive"] }
serde_json = "*"
thiserror = "*"
tower-http = { version = "*", features = ["fs", "cors", "compression-gzip", "timeout", "trace"] }
tracing = "*"
tracing-subscriber = "*"
