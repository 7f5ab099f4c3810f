[package]
name = "headmaster"
version = "0.3.0"
edition = "2021"
publish = false

[dependencies]
sha2 = "0.10"
hex = "0.4"
serde = { version = "1", features = ["derive"] }
serde_json = { version = "1", features = ["preserve_order"] }
kube = { version = "*", default-features = false, features = ["client", "runtime", "derive"] }
k8s-openapi = { version = "*", features = ["latest"] }
futures = "0.3"
tokio = { version = "1", features = ["macros", "rt"] }
tracing = "0.1"
thiserror = "2"
prost-types = "*"
