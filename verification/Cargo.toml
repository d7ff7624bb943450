[package]
name = "fabric"
version = "0.1.0"
edition = "2021"
publish = false

[dependencies]
async-trait = "0.1"
backoff = "0.4"
lazy_static = "1"
log = "0.4"
rand = "0.8"
serde = { version = "1", features = ["derive"] }
serde_json = "1"
serde_yaml = "0.9"
thiserror = "1"
tokio = { version = "1", features = ["full"] }
tokio-util = "0.7"
zenoh = { version = "0.11.0", default-features = false }
zenoh-keyexpr = "0.11.0"
