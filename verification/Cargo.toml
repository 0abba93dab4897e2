[package]
name = "kube_runtime"
version = "0.1.0"
edition = "2021"
publish = false

[dependencies]
Inflector = "0.11.4"
url = "2"
http = "1"
serde = { version = "1", features = ["derive"] }
serde_json = "1"
futures = "0.3"
tokio = { version = "1", default-features = false, features = ["time", "rt", "sync"] }
either = "1"
base64 = "0.13"
rand = "0.8"
