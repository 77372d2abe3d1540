[package]
name = "feedwatch"
version = "0.1.0"
edition = "2021"
publish = false

[dependencies]
indexmap = "*"
bsky-sdk = "*"
tokio = { version = "*", features = ["macros", "rt-multi-thread", "sync", "time"] }
log = "*"
