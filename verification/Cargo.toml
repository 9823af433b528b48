[package]
name = "tonic_rpc"
version = "0.1.0"
edition = "2021"
publish = false

[dependencies]
serde_json = "1"
bincode = "1"
serde_cbor = "0.11"
rmp-serde = "1"
heck = "0.3"
