[package]
name = "runtime"
version = "0.1.0"
edition = "2021"
publish = false

[dependencies]
fringe = "*"
log = "=0.4.34"
smoltcp = { version = "=0.6.0", default-features = false, features = ["std", "log", "ethernet", "proto-ipv4", "proto-ipv6", "socket-tcp"] }
