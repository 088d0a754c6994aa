[package]
name = "apollo_crypto"
version = "0.1.0"
edition = "2021"
publish = false

[dependencies]
base64 = "0.13"
curve25519-dalek = { version = "*", features = ["rand_core"] }
rand = "0.8"
