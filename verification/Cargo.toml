[package]
name = "libra_config"
version = "0.1.0"
edition = "2021"
publish = false

[dependencies]
rand = "0.7"
x25519-dalek = "0.6"
serde = { version = "1", features = ["derive"] }
anyhow = "1"
toml = "0.5"
get_if_addrs = "0.5"
