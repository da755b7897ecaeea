[package]
name = "zkvm_eval"
version = "0.1.0"
edition = "2021"
publish = false

[dependencies]
bincode = "1"
bonsai-sdk = "1"
risc0-binfmt = "2"
risc0-zkvm = "2"
tracing = "0.1"
