[package]
name = "safex_opaque"
version = "0.1.0"
edition = "2021"
publish = false

[dependencies]
opaque-ke = { version = "=3.0.0", features = ["argon2"] }
argon2 = "=0.5.3"
aes-gcm = "=0.10.3"
hkdf = "=0.12.4"
sha2 = "=0.10.9"
rand = "=0.8.8"
hex = "=0.4.3"
