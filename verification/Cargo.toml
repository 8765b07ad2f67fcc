[package]
name = "tonic"
version = "0.1.0"
edition = "2021"
publish = false

[dependencies]
bytes = "*"
http = "*"
http-body = "*"
futures-core = "*"
