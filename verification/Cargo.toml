[package]
name = "vut_wasm"
version = "0.1.0"
edition = "2021"
publish = false

[dependencies]
wasm-encoder = "*"
target-lexicon = "*"
