[package]
name = "quorum_store"
version = "0.1.0"
edition = "2021"
publish = false

[dependencies]
anyhow = "1"
bcs = "0.1"
futures = "0.3"
tiny-keccak = { version = "2", features = ["sha3"] }
tokio = { version = "1", features = ["rt", "sync", "time"] }
