[package]
name = "eth_bridge_client"
version = "0.1.0"
edition = "2021"
publish = false

[dependencies]
anyhow = "1"
ethers-core = "2"
ethers-providers = "2"
futures = "0.3"
tracing = "0.1"
