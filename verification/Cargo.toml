[package]
name = "raft_transport"
version = "0.1.0"
edition = "2021"
publish = false

[dependencies]
actix = "0.8"
actix-raft = "0.4"
futures = "0.1"
serde = { version = "1.0", features = ["derive"] }
serde_json = "1.0"
tokio = "0.1"
