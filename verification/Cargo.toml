[package]
name = "tirse"
version = "0.1.0"
edition = "2021"
publish = false

[dependencies]
byteorder = "1"
either = "1"
serde = "1"
