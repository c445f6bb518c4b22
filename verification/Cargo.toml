[package]
name = "sm4"
version = "0.1.0"
edition = "2021"
publish = false

[dependencies]
crc_all = "*"
