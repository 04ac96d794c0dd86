[package]
name = "vanity_addr"
version = "0.1.0"
edition = "2021"

[dependencies]
secp256k1 = "=0.33.1"
sha3 = "=0.12.0"
hex = "=0.4.3"
rand = "=0.9.5"
clap = { version = "=4.6.7", features = ["derive"] }
indicatif = "=0.18.6"
num_cpus = "=1.17.0"
rayon = "=1.12.0"
