[package]
name = "lib60870"
version = "0.1.0"
edition = "2021"
publish = false

[dependencies]
bytes = "1"
thiserror = "2"
tokio = { version = "1", features = ["full"] }
tokio-rustls = { version = "0.26", default-features = false }
tokio-serial = { version = "5.4", default-features = false }
tracing = "0.1"
