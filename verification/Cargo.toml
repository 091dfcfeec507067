[package]
name = "nooku"
version = "0.1.0"
edition = "2021"
publish = false

[dependencies]
chrono = "0.4"
serde_json = "1"
reqwest = "0.11"
tokio = { version = "1", features = ["macros", "rt-multi-thread"] }
serenity = { version = "0.11", default-features = false, features = ["client", "standard_framework", "voice", "rustls_backend", "cache", "gateway", "model", "http"] }
songbird = "0.3"
tracing-subscriber = "0.3"
