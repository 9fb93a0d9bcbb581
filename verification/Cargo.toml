[package]
name = "brindexer-logic"
version = "0.1.0"
edition = "2021"
publish = false

[dependencies]
alloy-json-rpc = "1"
alloy-primitives = "0.8.26"
alloy-rpc-client = "1"
alloy-sol-types = "0.8.26"
anyhow = "1"
async-trait = "0.1"
blockscout-display-bytes = "*"
derive-new = "0.7"
futures = "0.3"
reqwest = { version = "0.12", default-features = false, features = ["json", "rustls-tls"] }
serde = { version = "1", features = ["derive"] }
serde_json = "1"
thiserror = "1"
tokio = { version = "1", features = ["rt-multi-thread", "macros", "sync", "time", "signal"] }
tokio-cron-scheduler = { version = "0.13", features = ["signal"] }
tracing = "0.1"
url = "=2.5.0"
