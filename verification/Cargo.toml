[package]
name = "credit_manager"
version = "0.1.0"
edition = "2021"
publish = false

[dependencies]
cosmwasm-std = "=2.3.5"
osmosis-std = "=0.27.0"
prost = "=0.13.5"
serde = { version = "=1.0.229", features = ["derive"] }
