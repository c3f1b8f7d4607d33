[package]
name = "light_client"
version = "0.1.0"
edition = "2021"
publish = false

[dependencies]
ibc-proto = "=0.52.0"
prost = "=0.13.5"
cosmwasm-std = "=3.0.10"
serde = { version = "*", features = ["derive"] }
