[package]
name = "aux7"
version = "0.1.0"
edition = "2021"
publish = false

[dependencies]
cortex-m = "*"
f3 = "*"
