[package]
name = "flying_dutchman"
version = "0.1.0"
edition = "2021"
publish = false

[dependencies]
chess = "*"
lru = "*"
nohash-hasher = "*"
