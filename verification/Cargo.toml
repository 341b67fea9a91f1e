[package]
name = "ingest"
version = "0.1.0"
edition = "2021"
publish = false

[dependencies]
serde_json = "*"
chrono = "*"
serde = { version = "*", features = ["derive"] }
toml = "*"
tokio = { version = "*", features = ["rt-multi-thread", "macros", "sync", "time", "net", "io-util"] }
reqwest = { version = "*", default-features = false, features = ["json"] }
tokio-tungstenite = "*"
futures-util = "*"
async-trait = "*"
