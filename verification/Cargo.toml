[package]
name = "provider_presets"
version = "0.1.0"
edition = "2021"
publish = false

[dependencies]
indexmap = "2"
reqwest = { version = "0.12", default-features = false, features = ["blocking", "rustls-tls"] }
serde = { version = "1", features = ["derive"] }
serde_json = "1"
tracing = "0.1"
