[package]
name = "hpke_kdf"
version = "0.1.0"
edition = "2021"
publish = false

[dependencies]
hkdf = "*"
sha2 = "*"
aead = "*"
generic-array = "0.14"
