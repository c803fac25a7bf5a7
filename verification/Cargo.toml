[package]
name = "gambling_simulator"
version = "0.1.0"
edition = "2021"
publish = false

[dependencies]
weighted_rand = "0.4"
rand = "0.8"
raylib = "*"
