[package]
name = "pkger"
version = "0.1.0"
edition = "2021"
publish = false

[dependencies]
chrono = "0.4"
colored = "2"
serde = { version = "1", features = ["derive"] }
serde_cbor = "0.11"
toml = "0.5"
tracing = "0.1"
tracing-core = "0.1"
tracing-subscriber = "0.2"
