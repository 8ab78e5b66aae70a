[package]
name = "m0_orderbook"
version = "0.1.0"
edition = "2021"
publish = false

[dependencies]
alloy = { version = "=1.8.3", default-features = false }
anchor-lang = "=0.31.2"
hex = "=0.4.3"
bs58 = "=0.5.1"
base64 = "=0.22.1"
url = "=2.5.8"
serde = { version = "=1.0.229", features = ["derive"] }
