[package]
name = "typestate_bitcoin_handshake"
version = "0.1.0"
edition = "2021"
publish = false

[dependencies]
argh = "0.1"
bitcoin = "0.32"
bytes = "1"
eyre = "0.6"
futures = "0.3"
tokio = { version = "1", features = ["full"] }
tokio-util = { version = "0.7", features = ["codec"] }
tracing = "0.1"
tracing-subscriber = "0.3"
