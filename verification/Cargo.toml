[package]
name = "salvium_crypto"
version = "0.1.0"
edition = "2021"
publish = false

[dependencies]
blake2b_simd = "*"
tiny-keccak = { version = "*", features = ["keccak", "sha3"] }
wasm-bindgen = "*"
