[package]
name = "escrow_toolkit"
version = "0.1.0"
edition = "2021"
publish = false

[dependencies]
soroban-sdk = "=22.0.11"
stellar-strkey = "=0.0.9"
