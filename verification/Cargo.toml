[package]
name = "hpke_agility"
version = "0.1.0"
edition = "2021"
publish = false

[dependencies]
hkdf = "0.12"
sha2 = "0.10"
rand = "0.8"
x25519-dalek = "2"
aes-gcm = "0.10"
chacha20poly1305 = "0.10"
p256 = { version = "0.13", features = ["ecdh"] }
