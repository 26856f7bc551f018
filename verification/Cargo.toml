[package]
name = "wasmium_hash_id"
version = "0.1.0"
edition = "2021"
publish = false

[dependencies]
blake3 = "*"
borsh = { version = "*", features = ["derive"] }
nanorand = "*"
tai64 = "*"
