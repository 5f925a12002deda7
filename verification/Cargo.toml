[package]
name = "eth_provider"
version = "0.1.0"
edition = "2021"
publish = false

[dependencies]
alloy-pubsub = "=2.5.0"
alloy-rpc-client = { version = "=2.5.0", default-features = false, features = ["pubsub", "ws"] }
alloy-rpc-types = "=2.5.0"
alloy-transport-ws = "=2.5.0"
anyhow = "=1.0.104"
dashmap = "=5.5.3"
rand = "=0.8.8"
serde = { version = "=1.0.229", features = ["derive"] }
serde_json = "=1.0.154"
tokio = { version = "=1.54.1", features = ["rt", "rt-multi-thread", "sync", "macros"] }
url = "=2.5.8"
