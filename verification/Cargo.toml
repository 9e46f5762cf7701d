[package]
name = "racetime"
version = "0.1.0"
edition = "2021"
publish = false

[dependencies]
http = "=1.5.0"
url = "=2.5.8"
serde_json = "=1.0.154"
serde = { version = "=1.0.229", features = ["derive"] }
reqwest = { version = "=0.13.5", default-features = false, features = ["form"] }
thiserror = "=2.0.21"
tokio = { version = "=1.54.1", features = ["rt"] }
tokio-tungstenite = "=0.30.0"
itertools = "=0.15.0"
