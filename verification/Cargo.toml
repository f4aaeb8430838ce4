[package]
name = "threshold_crypto_core"
version = "0.1.0"
edition = "2021"
publish = false

[dependencies]
bls12_381 = "0.8"
sha2 = "0.10"
rand_core = { version = "0.6", features = ["getrandom"] }
