[package]
name = "xaynet_e2e"
version = "0.1.0"
edition = "2021"
publish = false

[dependencies]
anyhow = "=1.0.104"
chrono = "=0.4.45"
config = "=0.10.1"
futures = "=0.3.34"
indicatif = "=0.15.0"
influxdb = "=0.2.0"
k8s-openapi = { version = "=0.10.0", default-features = false, features = ["v1_19"] }
kube = "=0.45.0"
serde = { version = "=1.0.229", features = ["derive"] }
serde_json = "=1.0.154"
sodiumoxide = "=0.2.6"
thiserror = "=1.0.69"
tokio = { version = "=0.2.25", features = ["full"] }
tracing = "=0.1.44"
tracing-subscriber = "=0.2.25"
xaynet-core = "=0.2.0"
