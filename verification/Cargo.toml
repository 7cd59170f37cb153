[package]
name = "process_supervisor"
version = "0.1.0"
edition = "2021"
publish = false

[dependencies]
anyhow = "1"
async-trait = "0.1"
bytes = "=1.12.1"
chrono = { version = "0.4", default-features = false, features = ["serde"] }
futures-util = "0.3"
http-body-util = "=0.1.5"
hyper = { version = "=1.12.0", features = ["http1", "server"] }
hyper-util = { version = "0.1", features = ["tokio"] }
k8s-openapi = { version = "=0.25.0", features = ["latest"] }
kube = { version = "=1.1.0", default-features = false, features = ["client"] }
kube-runtime = "=1.1.0"
nix = { version = "0.31", features = ["signal", "process"] }
procfs = { version = "0.18", default-features = false }
reqwest = { version = "0.12", default-features = false, features = ["json"] }
serde = { version = "1", features = ["derive"] }
serde_derive = "1"
serde_json = "1"
thiserror = "1"
tokio = { version = "1", features = ["full"] }
