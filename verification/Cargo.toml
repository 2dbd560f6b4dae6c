[package]
name = "async_fuse"
version = "0.1.0"
edition = "2021"
publish = false

[dependencies]
anyhow = "1"
crossbeam-channel = "0.4"
futures = "0.3"
libc = "0.2"
log = "0.4"
nix = "0.18"
smol = "0.1"
