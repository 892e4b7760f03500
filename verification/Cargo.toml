[package]
name = "uv_distribution"
version = "0.1.0"
edition = "2021"
publish = false

[dependencies]
anyhow = "1"
futures = "0.3"
reqwest = { version = "0.11", default-features = false, features = ["stream"] }
reqwest-middleware = "0.2"
rmp-serde = "1"
tempfile = "3"
thiserror = "1"
tokio = { version = "1", features = ["fs", "io-util", "sync", "rt"] }
tokio-util = { version = "0.7", features = ["compat"] }
tracing = "0.1"
url = "2"
zip = { version = "0.6", default-features = false }
