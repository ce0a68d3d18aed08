[package]
name = "donations"
version = "0.1.0"
edition = "2021"
publish = false

[dependencies]
sp-arithmetic = "=29.0.0"
parity-scale-codec = "=3.7.5"
sp-runtime = "=49.0.0"
frame-support = "*"
