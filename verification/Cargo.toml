[package]
name = "build_flags"
version = "0.0.1"
edition = "2021"
publish = false

[dependencies]
dunce = "1"
