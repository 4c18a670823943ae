[package]
name = "vaina"
version = "0.1.0"
edition = "2021"
publish = false

[dependencies]
bytes = "1"
clap = "2.33"
nix = "0.23"
snafu = "0.6"
