[package]
name = "mcr-settlement-client"
version = "0.1.0"
edition = "2021"
publish = false

[dependencies]
anyhow = "1"
async-stream = "0.3"
tokio = { version = "1", features = ["sync"] }
tokio-stream = { version = "0.1", default-features = false }
tonic = { version = "0.11", default-features = false, features = ["codegen"] }
