[package]
name = "phase1_wasm"
version = "0.1.0"
edition = "2021"
publish = false

[dependencies]
blake2 = "=0.11.0"
rand = "=0.10.3"
rayon = "=1.12.0"
oneshot = { version = "=0.2.1", features = ["std"] }
