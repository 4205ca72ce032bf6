[package]
name = "ipv6_delegate"
version = "0.1.0"
edition = "2021"
publish = false

[dependencies]
sha2 = "*"
nix = { version = "*", features = ["net"] }
