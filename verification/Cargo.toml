[package]
name = "ammonite"
version = "0.1.0"
edition = "2021"
publish = false

[dependencies]
axum = "0.6"
clap = { version = "4", features = ["derive"] }
hyper = { version = "0.14", features = ["client", "server", "http1", "tcp"] }
metrics = "0.21"
metrics-exporter-prometheus = { version = "0.12", default-features = false, features = ["http-listener"] }
tokio = { version = "1", features = ["macros", "rt-multi-thread"] }
tower = "0.4"
tracing = "0.1"
tracing-subscriber = "0.3"
