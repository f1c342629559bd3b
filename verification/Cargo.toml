[package]
name = "catbird"
version = "0.1.0"
edition = "2021"
publish = false

[dependencies]
anyhow = "=1.0.104"
atrium-api = "=0.25.8"
atrium-common = "=0.1.4"
atrium-identity = { version = "=0.1.9", features = ["doh-handle-resolver"] }
atrium-oauth = "=0.1.7"
axum = "=0.7.9"
axum-extra = { version = "=0.9.6", features = ["cookie"] }
base64 = "=0.22.1"
bytes = "=1.12.1"
chrono = { version = "=0.4.45", features = ["serde"] }
config = "=0.14.1"
dotenvy = "=0.15.7"
futures-util = "=0.3.34"
jose-jwk = "=0.1.2"
p256 = { version = "=0.13.2", features = ["ecdsa", "pkcs8", "pem"] }
prometheus = { version = "=0.13.4", default-features = false }
redis = { version = "=0.25.5", features = ["tokio-comp", "connection-manager"] }
reqwest = { version = "=0.12.28", default-features = false, features = ["json", "stream", "rustls-tls"] }
serde = { version = "=1.0.229", features = ["derive"] }
serde_json = "=1.0.154"
sha2 = "=0.10.9"
thiserror = "=1.0.69"
time = "=0.3.55"
tokio = { version = "=1.54.1", features = ["full"] }
tower-http = { version = "=0.5.2", features = ["cors", "trace"] }
tracing = "=0.1.44"
tracing-subscriber = { version = "=0.3.23", features = ["env-filter"] }
url = "=2.5.8"
urlencoding = "=2.1.3"
uuid = { version = "=1.29.0", features = ["v4", "serde"] }
