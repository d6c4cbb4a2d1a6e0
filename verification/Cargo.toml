[package]
name = "rapid_fuzz"
version = "0.1.0"
edition = "2021"
publish = false

[dependencies]
arbitrary = "*"
rand = "*"
rand_chacha = "*"
clap = "*"
