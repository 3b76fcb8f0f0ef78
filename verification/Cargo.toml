[package]
name = "mold"
version = "0.1.0"
edition = "2021"
publish = false

[dependencies]
flate2 = "1"
libc = "0.2"
pathdiff = "0.2"
reqwest = "0.9"
tar = "0.4"
tempdir = "0.3"
