[package]
name = "multistream"
version = "0.1.0"
edition = "2021"
publish = false

[dependencies]
anyhow = "*"
easy-tokio-rustls = "*"
tokio = { version = "*", features = ["net", "io-util"] }
