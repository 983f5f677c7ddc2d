[package]
name = "deka"
version = "0.1.0"
edition = "2021"
publish = false

[dependencies]
kube = "*"
k8s-openapi = { version = "*", features = ["latest"] }
tokio = { version = "*", features = ["macros", "rt-multi-thread"] }
futures = "*"
serde = { version = "*", features = ["derive"] }
serde_json = "*"
serde_yaml = "*"
clap = { version = "*", features = ["derive"] }
backoff = "*"
tower = { version = "*", features = ["limit"] }
