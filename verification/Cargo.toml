[package]
name = "sepserde"
version = "0.1.0"
edition = "2021"
publish = false

[dependencies]
xml-no-std = "*"
xml-rs = "0.8"
bitflags = "2"
