[package]
name = "aura_consensus"
version = "0.1.0"
edition = "2021"
publish = false

[dependencies]
async-trait = "*"
futures = "*"
log = "*"
parity-scale-codec = "*"
sp-api = "*"
sp-application-crypto = "*"
sp-blockchain = "*"
sp-consensus = "*"
sp-consensus-aura = "*"
sp-consensus-slots = "*"
sp-core = "*"
sp-inherents = "*"
sp-keystore = "*"
sp-runtime = "*"
thiserror = "*"
