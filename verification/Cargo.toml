[package]
name = "algorithm_engine"
version = "0.1.0"
edition = "2021"
publish = false

[dependencies]
blake2 = "0.10"
scrypt = { version = "0.11", default-features = false }
sha2 = "0.10"
uuid = { version = "1", features = ["v4"] }
serde = { version = "1", features = ["derive"] }
tokio = { version = "1", features = ["sync", "time"] }
