[package]
name = "ser"
version = "0.1.0"
edition = "2021"
publish = false

[dependencies]
kona-derive = { version = "=0.0.7", default-features = false }
op-alloy-protocol = { version = "=0.6.8", default-features = false }
op-alloy-genesis = { version = "=0.6.8", default-features = false }
op-alloy-consensus = { version = "=0.6.8", default-features = false }
op-alloy-rpc-types = "=0.6.8"
alloy-rpc-types = "=0.6.4"
alloy-consensus = "=0.6.4"
alloy-eips = "=0.6.4"
alloy-primitives = "=0.8.26"
alloy-rlp = "=0.3.17"
rand = { version = "=0.8.8", features = ["small_rng"] }
anyhow = "=1.0.104"
async-trait = "=0.1.92"
tracing = "=0.1.44"
