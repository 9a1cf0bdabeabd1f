[package]
name = "b2_upload"
version = "0.1.0"
edition = "2021"
publish = false

[dependencies]
http-types = { version = "=2.12.0", default-features = false }
reqwest = { version = "=0.12.28", default-features = false, features = ["json", "rustls-tls"] }
serde = { version = "=1.0.229", features = ["derive"] }

[dev-dependencies]
http = "=1.5.0"
serde_json = "=1.0.154"
