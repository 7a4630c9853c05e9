[package]
name = "bytes_pool"
version = "0.1.0"
edition = "2021"
publish = false

[dependencies]
bytes = "1"
bytestring = "1"
