[package]
name = "dpab_appsanity"
version = "0.1.0"
edition = "2021"
publish = false

[dependencies]
url = "2"
queues = "1"
chrono = "0.4"
serde = { version = "1", features = ["derive"] }
serde_json = "1"
tokio = { version = "1", features = ["full"] }
uuid = { version = "1", features = ["v4"] }
hyper = { version = "0.14", features = ["full"] }
hyper-tls = "0.5"
tower = { version = "0.4", features = ["full"] }
tower-http = { version = "0.3", features = ["full"] }
