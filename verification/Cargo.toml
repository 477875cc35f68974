[package]
name = "abst_rs"
version = "0.1.0"
edition = "2021"
publish = false

[dependencies]
bytes = "1"
rand = "0.8"
themis = "0.14"
thiserror = "1"
tokio = { version = "1", features = ["io-util", "net"] }
uuid = "1"
