[package]
name = "azalea-protocol"
version = "0.1.0"
edition = "2021"
publish = false

[dependencies]
byteorder = "=1.5.0"
uuid = "=1.29.0"
