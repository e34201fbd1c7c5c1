[package]
name = "faunadb"
version = "0.1.0"
edition = "2021"
publish = false

[dependencies]
base64 = "0.10"
futures = "0.1"
http = "0.1"
hyper = "0.12"
hyper-tls = "0.3"
serde_json = "1"
tokio-timer = "0.2"
