[package]
name = "rpc_gateway"
version = "0.1.0"
edition = "2021"
publish = false

[dependencies]
alloy = { version = "=1.8.3", default-features = false, features = ["std", "consensus", "k256", "rlp", "eips", "network", "signer-local", "rpc-types"] }
rand = "=0.9.5"
serde = { version = "=1.0.229", features = ["derive"] }
serde_json = "=1.0.154"
axum = "=0.8.9"
tokio = { version = "=1.54.1", features = ["macros", "rt-multi-thread", "net", "time"] }
tower = "=0.5.3"
futures-util = "=0.3.34"
tracing = "=0.1.44"
tracing-subscriber = { version = "=0.3.23", features = ["env-filter", "json"] }
dotenvy = "=0.15.7"
eyre = "=0.6.14"
reqwest = { version = "=0.12.28", default-features = false, features = ["json"] }
