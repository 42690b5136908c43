[package]
name = "transcript_relay"
version = "0.1.0"
edition = "2021"
publish = false

[dependencies]
serde_json = "=1.0.151"
tokio = { version = "=1.53.2", features = ["rt-multi-thread", "macros", "sync", "io-std", "io-util"] }
tokio-tungstenite = "=0.30.0"
futures-util = "=0.3.34"
dotenvy = "=0.15.7"
