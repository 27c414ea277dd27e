[package]
name = "sm83_decoder"
version = "0.1.0"
edition = "2021"
publish = false

[dependencies]
byteorder = "1"
eyre = "0.6"
