[package]
name = "catalog_client"
version = "0.1.0"
edition = "2021"
publish = false

[dependencies]
deltalake-core = { version = "=1.1.2", default-features = false, features = ["rustls"] }
reqwest = { version = "=0.12.28", default-features = false, features = ["rustls-tls", "http2"] }
reqwest-middleware = { version = "=0.4.2" }
reqwest-retry = { version = "=0.7.0" }

[dev-dependencies]
tokio = { version = "=1.54.1", features = ["rt", "net", "time", "io-util"] }
