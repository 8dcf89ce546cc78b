[package]
name = "tls_adapter"
version = "0.1.0"
edition = "2021"
publish = false

[dependencies]
futures = "*"
rustls = "*"
webpki = "*"
webpki-roots = "*"
