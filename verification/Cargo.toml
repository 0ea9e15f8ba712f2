[package]
name = "telex"
version = "0.1.0"
edition = "2021"
publish = false

[dependencies]
chrono = "0.4"
regex-syntax = "0.8"
lazy_static = "1.4"
log = "0.4"
simplelog = "0.12"
