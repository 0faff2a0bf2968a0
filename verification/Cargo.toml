[package]
name = "cache_preload"
version = "0.1.0"
edition = "2021"
publish = false

[dependencies]
anyhow = "=1.0.104"
flate2 = "=1.1.10"
http-cache-reqwest = "=0.16.0"
reqwest = { version = "=0.12.28", default-features = false, features = ["rustls-tls"] }
reqwest-middleware = "=0.4.2"
tar = "=0.4.46"
tokio = { version = "=1.53.2", default-features = false, features = ["rt", "net", "time"] }
