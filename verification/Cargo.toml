[package]
name = "tsn"
version = "0.1.0"
edition = "2021"
publish = false

[dependencies]
nix = "0.26"
rand = "0.8"
libc = "0.2"
clap = { version = "3.2", features = ["cargo"] }
serde_yaml = "0.9"
signal-hook = "0.3"
num-format = "0.4"
pnet = "*"

[dev-dependencies]
regex = "1"
