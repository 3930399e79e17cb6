[package]
name = "crypto_tools"
version = "0.1.0"
edition = "2021"
publish = false

[dependencies]
curve25519-dalek = { version = "4.1.3", features = ["rand_core", "digest"] }
sha2 = "0.10.8"
digest = "0.10.7"
rand = "0.8.5"
rand_core = "0.6.4"

[dev-dependencies]
