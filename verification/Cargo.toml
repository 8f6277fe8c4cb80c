[package]
name = "rsmpv"
version = "0.1.0"
edition = "2021"
publish = false

[dependencies]
pkg-config = "0.3"
