[package]
name = "shuffle_shard"
version = "0.1.0"
edition = "2021"
publish = false

[dependencies]
proxy-wasm = "*"
log = "*"
