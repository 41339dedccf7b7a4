[package]
name = "framing"
version = "0.1.0"
edition = "2021"
publish = false

[dependencies]
bytes = "1"
bincode = "1"
serde = { version = "1", features = ["derive"] }
tokio = { version = "1", features = ["rt-multi-thread", "net", "io-util", "macros"] }
