[package]
name = "genbank_tbl"
version = "0.1.0"
edition = "2021"
publish = false

[dependencies]
csv = "1"
eyre = "0.6"
