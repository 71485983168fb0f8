[package]
name = "merkle_sdk_transactions"
version = "0.1.0"
edition = "2021"
publish = false

[dependencies]
ethers = { version = "=2.0.14", default-features = false }
rlp = "=0.5.2"
tokio-tungstenite = "=0.30.0"
tokio = { version = "=1.53.2", features = ["net"] }
futures = "=0.3.34"
