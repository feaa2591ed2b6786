[package]
name = "zk_nft"
version = "0.1.0"
edition = "2021"
publish = false

[dependencies]
anchor-lang = "=0.29.0"
light-hasher = "=1.1.1"
light-utils = "=1.1.0"
light-system-program = { version = "=1.2.0", features = ["cpi"] }
