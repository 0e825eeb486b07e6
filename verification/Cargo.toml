[package]
name = "kube"
version = "0.1.0"
edition = "2021"
publish = false

[dependencies]
http = "0.2"
url = "2"
serde = { version = "1", features = ["derive"] }
serde_json = "1"
