[package]
name = "cuid2_rs"
version = "0.1.0"
edition = "2021"

[dependencies]
hex = "0.4"
rand = "0.9"
rand_chacha = "0.9"
sha3 = "0.10"
