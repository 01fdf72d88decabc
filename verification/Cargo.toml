[package]
name = "yral_common"
version = "0.1.0"
edition = "2021"
publish = false

[dependencies]
candid = "=0.10.39"
serde = { version = "=1.0.229", features = ["derive"] }
serde_json = "=1.0.154"
bb8 = "=0.9.1"
bb8-redis = "=0.26.0"
tokio = { version = "=1.54.1", features = ["rt", "macros"] }
anyhow = "=1.0.104"
log = "=0.4.35"
crc32fast = "=1.5.4"
reqwest = { version = "=0.13.5", default-features = false, features = ["json"] }
num-bigint = "=0.4.8"
