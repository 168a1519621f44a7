[package]
name = "deskcast"
version = "0.1.0"
edition = "2021"
publish = false

[dependencies]
serde = { version = "1", features = ["derive"] }
tokio = { version = "1", features = ["rt-multi-thread", "net", "io-util", "fs", "time", "macros"] }
tokio-tungstenite = "*"
futures-util = "0.3"
