[package]
name = "vekslosh"
version = "0.1.0"
edition = "2021"
publish = false

[dependencies]
dirs-next = "2"
env_logger = "0.9"
futures = "0.3"
hmac-sha256 = "1"
hyper = { version = "0.14", features = ["full"] }
log = "0.4"
reqwest = { version = "0.11", default-features = false, features = ["json", "rustls-tls"] }
serde = "1"
serde_derive = "1"
serde_json = "1"
tokio = { version = "1", features = ["full"] }
toml = "0.5"
