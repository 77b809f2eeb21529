[package]
name = "dechunkrs"
version = "0.1.0"
edition = "2021"
publish = false

[dependencies]
blosc = "=0.3.1"
libmath = "*"
serde = { version = "=1.0.229", features = ["derive"] }
serde_json = "=1.0.154"
serde_repr = "=0.1.21"
