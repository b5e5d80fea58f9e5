[package]
name = "mux_os"
version = "0.1.0"
edition = "2021"
publish = false

[dependencies]
ipmpsc = "*"
nix = "0.26"
libc = "*"
signal-hook = "*"
