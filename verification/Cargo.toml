[package]
name = "mltt_elaborate"
version = "0.1.0"
edition = "2021"
publish = false

[dependencies]
im = "*"
pretty = "*"
language-reporting = "*"
