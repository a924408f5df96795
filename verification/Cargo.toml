[package]
name = "polyfuse"
version = "0.1.0"
edition = "2021"
publish = false

[dependencies]
bitflags = "1"
futures = "0.3"
libc = "0.2"
paste = "1"
tracing = "0.1"
zerocopy = "0.7"
