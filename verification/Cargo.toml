[package]
name = "pooled_tls"
version = "0.1.0"
edition = "2021"
publish = false

[dependencies]
async-std = "=1.13.2"
async-tls = "=0.12.0"
async-trait = "=0.1.92"
deadpool = "=0.7.0"
futures = "=0.3.34"
rustls = { version = "=0.20.9", features = ["dangerous_configuration"] }
