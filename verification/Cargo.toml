[package]
name = "wasm_audio"
version = "0.1.0"
edition = "2021"
publish = false

[dependencies]
anyhow = "1"
cpal = "0.15"
glicol = "0.13"
hashbrown = "0.14"
parking_lot = "0.12"
wasmtime = { version = "22", default-features = false, features = ["cranelift", "component-model", "runtime"] }
wasmtime-wasi = { version = "22", default-features = false }
