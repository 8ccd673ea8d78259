[package]
name = "quantum_vault"
version = "0.1.0"
edition = "2021"
publish = false

[dependencies]
pinocchio = "*"
pinocchio-pubkey = "*"
pinocchio-system = "*"
solana-nostd-sha256 = "*"
solana-winternitz = "*"
