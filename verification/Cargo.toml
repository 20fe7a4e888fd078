[package]
name = "flovyn_sdk"
version = "0.1.0"
edition = "2021"
publish = false

[dependencies]
uuid = { version = "1", features = ["v4", "v5"] }
chrono = "0.4"
serde = { version = "1", features = ["derive"] }
serde_json = "1"
async-trait = "0.1"
tokio = { version = "1", features = ["rt", "macros", "time", "sync"] }
parking_lot = "0.12"
rand = "0.8"
rand_chacha = "0.3"
tracing = "0.1"
thiserror = "1"
hostname = "0.4"
futures = "0.3"
schemars = "0.8"
