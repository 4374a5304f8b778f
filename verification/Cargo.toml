[package]
name = "ptyrelay"
version = "0.1.0"
edition = "2021"
publish = false

[dependencies]
anyhow = "*"
nix = "=0.26.4"
signal-hook = "*"
