[package]
name = "meilisearch_bridge"
version = "0.1.0"
edition = "2021"
publish = false

[dependencies]
serde = { version = "1", features = ["derive"] }
serde_json = "1"
napi = { version = "3", features = ["async", "napi4"] }
napi-derive = "3"
heed = "0.22"
tokio = { version = "1", features = ["rt", "sync"] }
parking_lot = "0.12"
hashbrown = "0.15"
