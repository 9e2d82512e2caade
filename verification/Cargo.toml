[package]
name = "consensus_core"
version = "0.1.0"
edition = "2021"
publish = false

[dependencies]
anyhow = "1"
async-trait = "0.1"
fail = "0.5"
futures = "0.3"
itertools = "0.10"
reqwest = { version = "0.11", default-features = false }
tokio = { version = "1", features = ["rt", "rt-multi-thread", "sync", "time", "macros"] }
tokio-metrics = "0.1"
warp = { version = "0.3", default-features = false }
