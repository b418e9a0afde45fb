[package]
name = "nl80211"
version = "0.1.0"
edition = "2021"
publish = false

[dependencies]
netlink-rust = "*"
encoding = "0.2"
mio = "0.6"
clap = "2"
libc = "0.2"
