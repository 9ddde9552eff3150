[package]
name = "bottlerocket_shadow"
version = "0.1.0"
edition = "2021"
publish = false

[dependencies]
serde_json = "1"
serde = { version = "1", features = ["derive"] }
kube = { version = "0.88", default-features = false, features = ["client"] }
k8s-openapi = { version = "0.21", features = ["v1_24"] }
async-trait = "0.1"
tracing = "0.1"
mockall = "0.11"

[dev-dependencies]
tokio = { version = "1", features = ["rt"] }
tower = { version = "0.4", features = ["util"] }
http = "0.2"
hyper = "0.14"
