[package]
name = "preflight"
version = "0.1.0"
edition = "2021"
publish = false

[dependencies]
log = "0.4"
nix = { version = "*", features = ["mount"] }
regex = "1"
