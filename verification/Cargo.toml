[package]
name = "relayer_primitives"
version = "0.1.0"
edition = "2021"
publish = false

[dependencies]
alloy = { version = "=0.8.3", features = ["rand", "contract", "provider-http", "signer-local"] }
chrono = { version = "=0.4.45", features = ["serde"] }
serde = { version = "=1.0.229", features = ["derive"] }
