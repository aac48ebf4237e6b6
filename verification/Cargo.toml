[package]
name = "klog"
version = "0.1.0"
edition = "2021"
publish = false

[dependencies]
anyhow = "1"
colored = "*"
futures-util = { version = "0.3", features = ["io"] }
itertools = "*"
k8s-openapi = { version = "*", features = ["latest"] }
kube = "*"
rand = "0.9"
serde_json = "1"
tokio = { version = "1", features = ["macros", "rt-multi-thread", "signal", "sync", "time"] }
tokio-util = "0.7"
