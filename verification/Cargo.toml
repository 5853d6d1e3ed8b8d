[package]
name = "paramant"
version = "0.1.0"
edition = "2021"
publish = false

[dependencies]
aws-lc-rs = "1"
oqs = "*"
sha2 = "0.10"
hkdf = "0.12"
argon2 = "0.5"
subtle = "2"
bip39 = "2"
aes-gcm = "0.10"
p256 = { version = "0.13", features = ["ecdh"] }
rand_core = { version = "0.6", features = ["getrandom"] }
pqcrypto-kyber = "0.8"
pqcrypto-traits = "0.3"
hex = "0.4"
serde = { version = "1", features = ["derive"] }
serde_json = "1"
zeroize = "1"
thiserror = "1"
napi = "2"
napi-derive = "2"
