[package]
name = "passablewords"
version = "0.1.0"
edition = "2021"
publish = false

[dependencies]
zxcvbn = "=0.6.0"
