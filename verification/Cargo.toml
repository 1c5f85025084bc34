[package]
name = "builder_signing"
version = "0.1.0"
edition = "2021"
publish = false

[dependencies]
alloy = { version = "0.2", default-features = false, features = ["rpc-types-beacon"] }
blst = "0.3"
ethereum_serde_utils = "*"
serde = { version = "1", features = ["derive"] }
ssz_types = "*"
tree_hash = "*"
tree_hash_derive = "*"
