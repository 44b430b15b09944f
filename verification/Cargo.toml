[package]
name = "civ5_p2p"
version = "0.1.0"
edition = "2021"
publish = false

[dependencies]
anyhow = "1"
async-std = { version = "1", features = ["attributes"] }
futures = "0.3"
libp2p = { version = "0.53", features = ["async-std", "tcp", "noise", "yamux", "kad", "gossipsub", "identify", "ping", "macros", "ed25519"] }
rustyline = { version = "*", default-features = false }
tokio = { version = "1", features = ["macros", "rt"] }
