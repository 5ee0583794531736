[package]
name = "mango_v4"
version = "0.1.0"
edition = "2021"
publish = false

[dependencies]
anchor-lang = "=0.24.2"
anchor-spl = { version = "=0.24.2", features = ["dex"] }
borsh = "=0.9.3"
bytemuck = "=1.25.2"
fixed = "=1.31.0"
num_enum = "=0.5.11"
serum_dex = "=0.4.0"
solana-program = "=1.9.29"
