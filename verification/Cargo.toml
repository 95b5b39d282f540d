[package]
name = "ohttp-hpke"
version = "0.1.0"
edition = "2021"
publish = false

[dependencies]
hex = "0.4"
hpke = "0.13"
log = "0.4"
pem = "3"
pkcs8 = { version = "0.10", features = ["std"] }
rand = "0.9"
