[package]
name = "commitments"
version = "0.1.0"
edition = "2021"
publish = false

[dependencies]
frame-support = "38.0.0"
frame-system = "38.0.0"
pallet-balances = "39.0.0"
sp-core = "34.0.0"
sp-io = "38.0.0"
sp-runtime = "39.0.0"
