[package]
name = "rgb_core"
version = "0.1.0"
edition = "2021"
publish = false

[dependencies]
amplify = "*"
bp-core = "*"
commit_verify = "*"
lnpbp_secp256k1zkp = "*"
sha2 = "*"
strict_encoding = "*"
