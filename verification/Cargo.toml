[package]
name = "altair_consensus"
version = "0.1.0"
edition = "2021"
publish = false

[dependencies]
integer-sqrt = "=0.1.5"
ssz_rs = "=0.9.0"
sha2 = "=0.10.9"
blst = "=0.3.17"
