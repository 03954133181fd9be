[package]
name = "cheap_api_core"
version = "0.1.0"
edition = "2021"
publish = false

[dependencies]
sha2 = "0.10"
hex = "0.4"
reqwest = { version = "0.12", default-features = false, features = ["rustls-tls"] }
serde = { version = "1", features = ["derive"] }
serde_json = "1"
mongodb = "3"
tokio = { version = "1", features = ["rt-multi-thread", "macros"] }
tracing = "0.1"
thiserror = "1"
async-trait = "0.1"
napi = { version = "2", features = ["async", "serde-json"] }
napi-derive = "2"
pyo3 = "0.22"
