[package]
name = "seed_phrase"
version = "0.1.0"
edition = "2021"
publish = false

[dependencies]
tiny-bip39 = "*"
slip10 = "*"
stellar-strkey = "*"
