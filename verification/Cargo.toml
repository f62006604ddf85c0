[package]
name = "wasm_works"
version = "0.1.0"
edition = "2021"
publish = false

[dependencies]
bincode = { version = "2", features = ["derive"] }
evalexpr = "11"
regex = "1"
log = "0.4"
proxy-wasm = "0.2"
protobuf = "3"
