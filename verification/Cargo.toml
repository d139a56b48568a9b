[package]
name = "wallet_core"
version = "0.1.0"
edition = "2021"
publish = false

[dependencies]
prefix-hex = { version = "0.7", features = ["primitive-types"] }
primitive-types = "0.12"
serde = { version = "1", features = ["derive"] }
serde_json = "1"
backtrace = "0.3"
zeroize = "1"
futures = "0.3"
iota-client = { version = "*", default-features = false }
