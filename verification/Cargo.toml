[package]
name = "rfsb509"
version = "0.1.0"
edition = "2021"
publish = false

[dependencies]
generic-array = "0.14"
rust-crypto = "0.2.36"
sha2 = { version = "0.10", features = ["compress"] }
