[package]
name = "gachapon"
version = "0.1.0"
edition = "2021"
publish = false

[dependencies]
anchor-lang = "=0.31.2"
anchor-spl = "=0.31.2"
borsh = "=0.10.4"
mpl-token-metadata = "=5.1.1"
