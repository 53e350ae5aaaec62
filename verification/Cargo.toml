[package]
name = "xed25519"
version = "0.1.0"
edition = "2021"
publish = false

[dependencies]
curve25519-dalek = "4"
x25519-dalek = "2"
rand_core = { version = "0.6", features = ["getrandom"] }
napi = { version = "2", features = ["napi4"] }
napi-derive = "2"
