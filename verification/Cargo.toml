[package]
name = "site_server"
version = "0.1.0"
edition = "2021"
publish = false

[dependencies]
axum = "*"
metrics = "*"
metrics-exporter-prometheus = { version = "*", default-features = false }
tokio = { version = "*", features = ["macros", "rt-multi-thread", "signal", "net", "fs"] }
tower-http = { version = "*", features = ["fs", "timeout", "trace"] }
tracing = "*"
tracing-subscriber = "*"
