[package]
name = "coreum_test_tube"
version = "0.1.0"
edition = "2021"
publish = false

[dependencies]
base64 = "=0.22.1"
prost = "=0.12.6"
cosmrs = { version = "=0.15.0", features = ["cosmwasm", "rpc"] }
cosmwasm-std = "=2.3.6"
coreum-wasm-sdk = "=1.2.1"
