[package]
name = "wallet_dashboard"
version = "0.1.0"
edition = "2021"
publish = false

[dependencies]
alloy = { version = "=1.8.3", default-features = false, features = ["dyn-abi"] }
clear-signing = { version = "=0.1.0", default-features = false }
hex = "=0.4.3"
iced = { version = "=0.14.0", default-features = false, features = ["x11", "thread-pool"] }
serde_json = "=1.0.154"
