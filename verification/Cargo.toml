[package]
name = "idl_pipeline"
version = "0.1.0"
edition = "2021"
publish = false

[dependencies]
flate2 = "=1.1.10"
serde_json = { version = "=1.0.151", features = ["preserve_order"] }
solana-sdk = "=2.3.1"
anyhow = "=1.0.104"
tracing = "=0.1.44"
tracing-subscriber = "=0.3.23"
