[package]
name = "maxima_hyper_pi"
version = "0.1.0"
edition = "2021"
publish = false

[dependencies]
pqcrypto-kyber = "=0.8.1"
pqcrypto-dilithium = "=0.5.0"
pqcrypto-traits = "=0.3.5"
rand = "=0.10.3"
soroban-sdk = "=29.0.1"
stellar_sdk = "=0.1.4"
stellar-base = "=0.5.0"
tokio = { version = "=1.54.1", features = ["full"] }
log = "=0.4.34"
env_logger = "=0.11.11"
