[package]
name = "epassport"
version = "0.1.0"
edition = "2021"
publish = false

[dependencies]
ink = "*"
x509-signature = "*"

[dev-dependencies]
rcgen = "*"
