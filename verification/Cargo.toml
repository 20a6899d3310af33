[package]
name = "common"
version = "0.1.0"
edition = "2021"
publish = false

[dependencies]
anyhow = "=1.0.104"
chrono = "=0.4.45"
http = "=0.2.12"
k8s-openapi = { version = "=0.20.0", features = ["v1_26"] }
kube = "=0.87.2"
lazy_static = "=1.5.1"
reqwest = { version = "=0.11.27", features = ["json", "native-tls"] }
rocket = { version = "=0.5.2", features = ["json"] }
serde = { version = "=1.0.229", features = ["derive"] }
serde_json = "=1.0.154"
thiserror = "=1.0.69"
tokio = { version = "=1.54.1", features = ["sync", "macros", "rt-multi-thread"] }
tracing = "=0.1.44"
tracing-subscriber = "=0.3.23"
