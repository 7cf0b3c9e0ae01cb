[package]
name = "rpcmoq_lite"
version = "0.1.0"
edition = "2021"
publish = false

[dependencies]
ahash = "=0.8.12"
anyhow = "=1.0.104"
async-stream = "=0.3.6"
bytes = "=1.12.1"
dashmap = "=6.2.1"
futures = "=0.3.34"
moq-lite = "=0.12.0"
prost = "=0.14.4"
thiserror = "=2.0.21"
tokio = { version = "=1.54.1", features = ["rt", "rt-multi-thread", "time", "sync", "macros"] }
tonic = "=0.14.6"
tracing = "=0.1.44"
url = "=2.5.8"
web-transport-quinn = "=0.10.2"
