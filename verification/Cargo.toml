[package]
name = "doip"
version = "0.1.0"
edition = "2021"
publish = false

[dependencies]
iso13400-2 = "*"
iso14229-1 = "*"
hex = "0.4"
native-tls = "0.2"
log = "0.4"
