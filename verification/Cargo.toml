[package]
name = "bastille_crypto"
version = "0.1.0"
edition = "2021"
publish = false

[dependencies]
blake3 = "*"
hex = "*"
pqcrypto-dilithium = "*"
pqcrypto-falcon = "*"
pqcrypto-sphincsplus = "*"
pqcrypto-traits = "*"
