[package]
name = "modbot"
version = "0.1.0"
edition = "2021"
publish = false

[dependencies]
polodb_core = "=4.4.2"
regex = "=1.13.1"
serde = { version = "=1.0.229", features = ["derive"] }
serenity = { version = "=0.12.5", default-features = false, features = ["builder", "cache", "chrono", "client", "gateway", "http", "model", "utils", "rustls_backend"] }
tokio = { version = "=1.54.1", features = ["macros", "rt-multi-thread", "sync", "time"] }
