[package]
name = "xcm_location"
version = "0.1.0"
edition = "2021"
publish = false

[dependencies]
parity-scale-codec = "*"
sp-io = "*"
sp-runtime = "*"
polkadot-parachain-primitives = "*"
staging-xcm = "*"
