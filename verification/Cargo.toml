[package]
name = "dkg_verifier"
version = "0.1.0"
edition = "2021"
publish = false

[dependencies]
parity-scale-codec = "3"
sp-core = "*"
sp-io = "*"

[dev-dependencies]
sp-keystore = "*"
