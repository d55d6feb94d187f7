[package]
name = "decfmt"
version = "0.1.0"
edition = "2021"

[dependencies]
itoa = "1"
zmij = "*"
