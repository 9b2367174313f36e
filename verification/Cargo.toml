[package]
name = "kernel_relay"
version = "0.1.0"
edition = "2021"
publish = false

[dependencies]
serde = { version = "1", features = ["derive"] }
serde_json = "1"
tokio = { version = "1", default-features = false, features = ["rt", "rt-multi-thread", "macros", "sync", "time", "process", "io-util"] }
tokio-tungstenite = "*"
futures-util = "0.3"
url = "2"
reqwest = { version = "*", default-features = false, features = ["json"] }
