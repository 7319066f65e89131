[package]
name = "pvp_trade"
version = "0.2.0"
edition = "2021"
publish = false

[dependencies]
anchor-lang = "=1.2.2"
anchor-spl = { version = "=1.2.2", default-features = false, features = ["token", "solana-v3"] }
