[package]
name = "svc_assets"
version = "0.1.0"
edition = "2021"
publish = false

[dependencies]
uuid = { version = "=1.29.0", features = ["v4"] }
serde = { version = "=1.0.229", features = ["derive"] }
serde_json = "=1.0.154"
axum = "=0.6.20"
hyper = "=0.14.32"
tokio = { version = "=1.54.1", features = ["full"] }
tower = { version = "=0.4.13", features = ["buffer", "limit", "util"] }
tower-http = { version = "=0.4.4", features = ["cors", "trace"] }
utoipa = "=3.5.0"
svc-storage-client-grpc = "=0.2.0"
tonic = "=0.8.3"
