[package]
name = "consensus_core"
version = "0.1.0"
edition = "2021"
publish = false

[dependencies]
fastcrypto = "*"
bytes = "*"
base64 = "*"

[dev-dependencies]
bcs = "*"
