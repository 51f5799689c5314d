[package]
name = "kzgrs_da"
version = "0.1.0"
edition = "2021"
publish = false

[dependencies]
ark-bls12-381 = "0.4"
ark-ec = "0.4"
ark-ff = "0.4"
ark-poly = "0.4"
ark-serialize = "0.4"
blst = "0.3"
rand = "0.8"
sha3 = "0.10"
