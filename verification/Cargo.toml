[package]
name = "anvil_firehose"
version = "0.1.0"
edition = "2021"
publish = false

[dependencies]
ethers-core = { version = "2", default-features = false }
bytes = "1"
serde = { version = "1", features = ["derive"] }
serde_json = "1"
