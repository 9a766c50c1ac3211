[package]
name = "bp_seals"
version = "0.1.0"
edition = "2021"
publish = false

[dependencies]
bitcoin = { version = "0.28.1", features = ["rand"] }
commit_verify = "0.8.0"
lnpbp_bech32 = "0.8.0"
