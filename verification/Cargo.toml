[package]
name = "voru"
version = "0.1.0"
edition = "2021"
publish = false

[dependencies]
rand = "=0.8.8"
rodio = "=0.17.3"
lofty = "=0.22.4"
toml = "=0.8.23"
serde = { version = "1", features = ["derive"] }
crossterm = "=0.28.1"
async-std = { version = "=1.13.2", features = ["attributes"] }
mpris-server = "=0.8.1"
