[package]
name = "gossip"
version = "0.1.0"
edition = "2021"
publish = false

[dependencies]
ed25519-dalek = "1"
libp2p = "0.36"
tokio = { version = "1", features = ["full"] }
serde = { version = "1", features = ["derive"] }
serde_json = "1"
bincode = "1"
clap = "2"
env_logger = "0.9"
log = "0.4"
rand = "0.8"
thiserror = "1"
