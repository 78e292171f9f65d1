[package]
name = "sol-tic-tac-toe"
version = "0.1.0"
edition = "2021"
publish = false

[dependencies]
anchor-lang = "*"
num-derive = "*"
num-traits = "*"
