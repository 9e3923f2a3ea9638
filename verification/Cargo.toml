[package]
name = "dns_hooks"
version = "0.1.0"
edition = "2021"
publish = false

[dependencies]
dnssector = "*"
qp-trie = "*"
glob = "*"
libloading = "*"
nix = "*"
