[package]
name = "bsproxy"
version = "0.1.0"
edition = "2021"
publish = false

[dependencies]
anyhow = "1"
base64 = "0.21"
dashmap = "5"
hyper = { version = "0.14", features = ["server", "http1", "tcp"] }
log = "0.4"
rcgen = "0.11"
rustls = "0.21"
serde = { version = "1", features = ["derive"] }
sha1 = "0.10"
tokio = { version = "1", features = ["full"] }
tokio-rustls = "0.24"
toml = "0.8"
