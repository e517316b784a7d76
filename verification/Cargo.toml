[package]
name = "zewif_zingo"
version = "0.1.0"
edition = "2021"
publish = false

[dependencies]
bip0039 = "*"
orchard = { version = "*", default-features = false }
