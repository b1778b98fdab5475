[package]
name = "dannesk"
version = "0.4.0"
edition = "2021"
publish = false

[dependencies]
base64 = "=0.23.1"
bip39 = "=3.0.0"
bitcoin = "=0.32.102"
bs58 = { version = "=0.5.1", features = ["check"] }
chrono = "=0.4.45"
hex = "=0.4.3"
rand = "=0.10.3"
ripemd = "=0.2.0"
rippled_binary_codec = "*"
serde = { version = "=1.0.229", features = ["derive"] }
serde_json = "=1.0.154"
sha2 = "=0.11.1"
uuid = { version = "=1.29.1", features = ["v4"] }
xrpl-rust = "*"
zeroize = "=1.9.1"
