[package]
name = "google_cloud"
version = "0.1.0"
edition = "2021"
publish = false

[dependencies]
frank_jwt = "*"
serde_json = "*"
serde = { version = "*", features = ["derive"] }
reqwest = { version = "*", default-features = false, features = ["rustls-tls", "json"] }
tokio = { version = "*", features = ["sync"] }
chrono = "*"
