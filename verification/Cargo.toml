[package]
name = "quickserve"
version = "0.1.0"
edition = "2021"
publish = false

[dependencies]
argh = "*"
async-std = { version = "*", features = ["attributes"] }
tide = "*"
