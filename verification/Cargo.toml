[package]
name = "interaction_options"
version = "0.1.0"
edition = "2021"
publish = false

[dependencies]
serenity = { version = "0.11", default-features = false, features = ["builder", "http", "model", "rustls_backend"] }
tracing = "0.1"

[dev-dependencies]
serde_json = "1"
