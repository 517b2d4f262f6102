[package]
name = "coralgate"
version = "0.1.0"
edition = "2021"
publish = false

[dependencies]
base64 = "0.22"
chrono = "0.4"
clap = { version = "4", features = ["derive"] }
k8s-openapi = { version = "*", features = ["latest"] }
kube = "*"
rcgen = { version = "*", features = ["aws_lc_rs", "pem", "x509-parser"] }
serde_json = "1"
thiserror = "*"
tokio = { version = "1", features = ["macros", "rt-multi-thread", "fs", "time"] }
