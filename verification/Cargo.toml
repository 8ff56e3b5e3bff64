[package]
name = "tcp_proxy"
version = "0.1.0"
edition = "2021"
publish = false

[dependencies]
aes-gcm = "0.10"
anyhow = "1"
tokio = { version = "1", features = ["net", "io-util", "rt-multi-thread", "macros"] }
