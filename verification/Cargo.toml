[package]
name = "tsproxy_operator"
version = "0.1.0"
edition = "2021"
publish = false

[dependencies]
anyhow = "1"
clap = { version = "4", features = ["derive", "env"] }
futures = "0.3"
k8s-openapi = { version = "0.18", features = ["v1_26"] }
kube = { version = "0.83", default-features = false, features = ["client", "derive", "rustls-tls"] }
kube-runtime = "0.83"
log = "0.4"
oauth2 = { version = "4.4", default-features = false, features = ["reqwest", "rustls-tls"] }
pretty_env_logger = "0.5"
reqwest = { version = "0.11", default-features = false, features = ["json", "rustls-tls"] }
schemars = "0.8"
serde = { version = "1", features = ["derive"] }
serde_json = "1"
serde_yaml = "0.9"
thiserror = "1"
tokio = { version = "1", features = ["full"] }
