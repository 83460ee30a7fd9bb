[package]
name = "rustpostal"
version = "0.3.0"
edition = "2021"
publish = false

[dependencies]
bitflags = "1.3"
libc = "0.2"
