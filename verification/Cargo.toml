[package]
name = "desnet"
version = "0.1.0"
edition = "2021"
publish = false

[dependencies]
bs58 = "0.5"
clap = { version = "4", features = ["derive"] }
futures = "0.3"
libp2p = { version = "0.53", features = ["autonat", "dns", "ed25519", "gossipsub", "identify", "kad", "macros", "noise", "ping", "tcp", "tokio", "yamux"] }
sha3 = "0.10"
tokio = { version = "1", features = ["io-std", "io-util", "macros", "rt-multi-thread"] }
tracing-subscriber = { version = "0.3", features = ["env-filter"] }
