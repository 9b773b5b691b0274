[package]
name = "ctr_randomizer"
version = "0.1.0"
edition = "2021"
publish = false

[dependencies]
rand = "*"
rand_chacha = "*"
qbsdiff = "*"
md5 = "*"
serde_json = "*"
