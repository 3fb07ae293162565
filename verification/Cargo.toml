[package]
name = "bls2brs"
version = "0.1.0"
edition = "2021"
publish = false

[dependencies]
regex = "1"
brs = "*"
bl_save = "*"
wexit = "*"
