[package]
name = "patron"
version = "0.1.0"
edition = "2021"
publish = false

[dependencies]
tokio = { version = "*", features = ["sync", "rt-multi-thread", "macros", "time"] }
libp2p = { version = "*", features = ["tokio", "gossipsub", "mdns", "noise", "yamux", "tcp", "quic", "macros"] }
futures = "*"
log = "*"
env_logger = "*"
rand = "*"
diesel = { version = "*", features = ["sqlite"] }
