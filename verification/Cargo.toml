[package]
name = "geneva_uploader"
version = "0.1.0"
edition = "2021"
publish = false

[dependencies]
chrono = { version = "=0.4.45", default-features = false, features = ["std", "alloc"] }
md5 = "=0.8.1"
opentelemetry-proto = { version = "=0.33.1", default-features = false, features = ["gen-tonic-messages", "logs", "trace"] }
reqwest = { version = "=0.12.28", default-features = false, features = ["rustls-tls"] }
serde = { version = "=1.0.229", features = ["derive"] }
serde_json = "=1.0.154"
thiserror = "=2.0.21"
tracing = "=0.1.44"
url = "=2.5.8"
uuid = { version = "=1.29.0", features = ["v4"] }
