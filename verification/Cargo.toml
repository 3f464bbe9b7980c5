[package]
name = "tty_override"
version = "0.1.0"
edition = "2021"
publish = false

[dependencies]
regex = "1"
toml = "0.8"
nix = { version = "0.28", features = ["term", "process", "fs"] }
libc = "0.2"
