[package]
name = "evm_rpc_compat"
version = "0.1.0"
edition = "2021"
publish = false

[dependencies]
ethereum = "0.12"
ethereum-types = { version = "0.13", features = ["codec"] }
hex = "0.4"
jsonrpsee = { version = "0.15", features = ["server"] }
parity-scale-codec = "3"
rlp = "0.5"
