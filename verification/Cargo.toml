[package]
name = "rand_split"
version = "0.1.0"
edition = "2021"
publish = false

[dependencies]
rand = "0.3"
clap = "2"
rust-crypto = "0.2"
mersenne_twister = "*"
void = "1"
