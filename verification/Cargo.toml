[package]
name = "mint_nft_skytrade"
version = "0.1.0"
edition = "2021"
publish = false

[dependencies]
solana-program = "=2.3.0"
anchor-lang = { version = "=0.31.2", features = ["init-if-needed"] }
anchor-spl = { version = "=0.31.2", features = ["metadata"] }
mpl-bubblegum = "=2.1.1"
spl-account-compression = "=1.0.0"
borsh = "=0.10.4"
