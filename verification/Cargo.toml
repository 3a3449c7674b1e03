[package]
name = "operator"
version = "0.1.0"
edition = "2021"
publish = false

[dependencies]
chrono = "*"
serde = { version = "*", features = ["derive"] }
serde_json = "*"
serde_yaml = "*"
serde_with = "*"
schemars = "*"
kube = { version = "*", default-features = false, features = ["client", "runtime", "derive", "admission"] }
k8s-openapi = { version = "*", features = ["latest", "schemars"] }
tokio = { version = "*", features = ["macros", "rt-multi-thread", "time", "sync"] }
futures = "*"
actix-web = { version = "*", features = ["macros", "rustls-0_23"] }
rustls = "*"
rustls-pki-types = "*"
clap = { version = "*", features = ["derive"] }
anyhow = "*"
thiserror = "*"
tracing = "*"
tracing-subscriber = { version = "*", features = ["json", "env-filter"] }
json-patch = "*"
local-ip-address = "*"
duration-string = { version = "*", features = ["serde"] }
tempfile = "*"
