[package]
name = "local_relay"
version = "0.1.0"
edition = "2021"
publish = false

[dependencies]
httparse = "=1.10.1"
hyper = "=0.10.16"
url = "=1.7.2"
