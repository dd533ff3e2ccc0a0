[package]
name = "luckyplus"
version = "0.1.0"
edition = "2021"
publish = false

[dependencies]
parity-codec = "3"
rand = "0.7"
blake2-rfc = "0.2"
