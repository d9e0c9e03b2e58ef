[package]
name = "galynx_core"
version = "0.1.0"
edition = "2021"
publish = false

[dependencies]
serde_json = "*"
serde = { version = "*", features = ["derive"] }
reqwest = { version = "*", default-features = false, features = ["json"] }
tokio = { version = "*", features = ["rt", "rt-multi-thread", "sync", "time", "macros"] }
tokio-tungstenite = "*"
futures-util = "*"
log = "*"
