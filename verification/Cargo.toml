[package]
name = "tls_admit"
version = "0.1.0"
edition = "2021"
publish = false

[dependencies]
indexmap = "2"
futures = "0.3"
tokio = { version = "1", features = ["net", "io-util", "sync", "rt"] }
rustls = "=0.19.1"
tokio-rustls = "=0.22.0"
webpki = "=0.21.4"
