[package]
name = "amm_batch_request"
version = "0.1.0"
edition = "2021"
publish = false

[dependencies]
ethers = { version = "2.0", default-features = false }
tracing = "0.1"
