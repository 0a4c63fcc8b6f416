[package]
name = "overlay_node"
version = "0.1.0"
edition = "2021"
publish = false

[dependencies]
bincode = "1"
chrono = { version = "0.4", features = ["serde"] }
ed25519-dalek = { version = "1", features = ["serde"] }
futures = "0.3"
hex = "0.4"
lmdb-rs = "0.7"
rand = "0.7"
serde = { version = "1", features = ["derive"] }
serde_derive = "1"
sha3 = "0.9"
thiserror = "1"
tokio = { version = "1", features = ["rt-multi-thread", "sync", "time"] }
tracing = "0.1"
tracing-subscriber = "0.3"
