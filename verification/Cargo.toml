[package]
name = "ipv6_watch"
version = "0.1.0"
edition = "2021"
publish = false

[dependencies]
get_if_addrs = "*"
clap = { version = "*", features = ["derive", "env"] }
dbus = "*"
log = "*"
simple_logger = "*"
