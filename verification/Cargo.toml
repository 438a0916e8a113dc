[package]
name = "tcp_engine"
version = "0.1.0"
edition = "2021"
publish = false

[dependencies]
etherparse = "0.9"
tun-tap = { version = "0.1", default-features = false }
