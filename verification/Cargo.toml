[package]
name = "casper-usd"
version = "0.1.0"
edition = "2021"
publish = false

[dependencies]
odra = "=2.8.2"
odra-cli = "=2.8.2"
odra-core = "=2.8.2"
