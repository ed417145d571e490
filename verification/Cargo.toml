[package]
name = "repeated_game"
version = "0.1.0"
edition = "2021"
publish = false

[dependencies]
rand = "0.9"
csv = "1"
itertools = "*"
ndarray = "*"
