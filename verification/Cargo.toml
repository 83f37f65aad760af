[package]
name = "quotax"
version = "0.1.0"
edition = "2021"
publish = false

[dependencies]
ico = "*"
serde = { version = "1", features = ["derive"] }
serde_json = "1"
directories = "*"
reqwest = { version = "0.12", default-features = false, features = ["rustls-tls"] }
tokio = { version = "1", features = ["rt", "sync", "time", "macros"] }
