[package]
name = "ilda_idtf"
version = "0.1.0"
edition = "2021"
publish = false

[dependencies]
byteorder = "1"
zerocopy = "0.6"
