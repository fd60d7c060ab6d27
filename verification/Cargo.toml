[package]
name = "robet"
version = "0.1.0"
edition = "2021"
publish = false

[dependencies]
cosmwasm-std = "=1.5.11"
cosmwasm-schema = "=1.5.11"
cw2 = "=1.1.2"
cw20-base = { version = "=1.1.2", features = ["library"] }
cw-storage-plus = "=1.2.0"
anchor-lang = "=0.31.2"
anchor-spl = "=0.31.2"
