[package]
name = "universal_nft"
version = "0.1.0"
edition = "2021"
publish = false

[dependencies]
hex = "=0.4.3"
bs58 = "0.5"
anchor-lang = "=0.31.2"
anchor-spl = "=0.31.2"
mpl-token-metadata = "=5.1.1"
