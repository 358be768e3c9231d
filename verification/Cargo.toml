[package]
name = "vanity_search"
version = "0.1.0"
edition = "2021"
publish = false

[dependencies]
bitcoin = { version = "=0.32.102", features = ["rand-std"] }
num_cpus = "=1.17.0"
secp256k1 = { version = "=0.29.1", features = ["global-context"] }
