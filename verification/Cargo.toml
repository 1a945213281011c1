[package]
name = "helios_client"
version = "0.1.0"
edition = "2021"
publish = false

[dependencies]
alloy = { version = "=2.5.0", default-features = false, features = ["std", "network", "json-rpc", "rpc-types"] }
eyre = "=0.6.14"
figment = "=0.10.19"
hex = "=0.4.3"
jsonrpsee = { version = "=0.26.1", features = ["server", "macros"] }
serde = { version = "=1.0.229", features = ["derive"] }
tracing = "=0.1.44"
url = { version = "=2.5.8", features = ["serde"] }
