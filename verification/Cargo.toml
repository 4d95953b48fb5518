[package]
name = "smartcard"
version = "0.1.0"
edition = "2021"
publish = false

[dependencies]
base64 = "=0.13.1"
neon = { version = "=0.9.1", default-features = false, features = ["napi-6"] }
openpgp-card = "=0.1.0"
openpgp-card-pcsc = "=0.1.0"
