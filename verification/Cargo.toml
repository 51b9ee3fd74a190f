[package]
name = "op_tx_type"
version = "0.1.0"
edition = "2021"
publish = false

[dependencies]
alloy-consensus = "=2.5.0"
alloy-eips = "=2.5.0"
alloy-primitives = { version = "=1.7.3", features = ["serde"] }
alloy-rlp = "=0.3.16"
arbitrary = "=1.5.0"
derive_more = { version = "=2.1.1", features = ["display"] }
serde = { version = "=1.0.229", features = ["derive"] }
