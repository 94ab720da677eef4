[package]
name = "chain_store"
version = "0.1.0"
edition = "2021"
publish = false

[dependencies]
heed = "=0.20.5"
rayon = "=1.12.0"
serde = { version = "=1.0.229", features = ["derive"] }
bincode = "=2.0.1"
color-eyre = "=0.6.5"
bitcoin = "*"
