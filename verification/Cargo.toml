[package]
name = "rootlessnet_core"
version = "0.1.0"
edition = "2021"
publish = false

[dependencies]
blake3 = { version = "=1.8.7", default-features = false, features = ["pure", "std"] }
bs58 = "=0.5.1"
chacha20poly1305 = "=0.10.1"
ed25519-dalek = { version = "=2.2.0", features = ["rand_core"] }
hex = "=0.4.3"
hkdf = "=0.12.4"
pyo3 = { version = "0.20", features = ["abi3-py38"] }
rand = "=0.8.8"
serde = { version = "=1.0.229", features = ["derive"] }
serde_json = { version = "=1.0.154", features = ["preserve_order"] }
sha2 = "=0.10.9"
thiserror = "=1.0.69"
x25519-dalek = { version = "=2.0.1", features = ["static_secrets"] }
