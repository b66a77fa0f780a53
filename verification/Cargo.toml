[package]
name = "accrual_engine"
version = "0.1.0"
edition = "2021"
publish = false

[dependencies]
soroban-sdk = { version = "=29.0.1", features = ["alloc", "hazmat-address"] }
ark-bn254 = "=0.6.0"
ark-ff = "=0.6.0"
