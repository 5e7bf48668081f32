[package]
name = "diamond_hands"
version = "0.1.0"
edition = "2021"
publish = false

[dependencies]
anyhow = "1"
clap = { version = "4", features = ["derive", "env"] }
dotenv = "0.15"
pinocchio = "0.9"
pinocchio-log = "0.5"
pinocchio-pubkey = "0.3"
pinocchio-system = "0.3"
pinocchio-token = "0.4"
solana-account-decoder = "3.0"
solana-instruction = "3.0"
solana-keypair = "3.0"
solana-pubkey = { version = "3.0", features = ["curve25519"] }
solana-signer = "3.0"
solana-system-interface = "2.0"
solana-transaction = "3.0"
spl-associated-token-account-interface = "2.0"
spl-token-interface = "2.0"
