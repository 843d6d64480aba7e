[package]
name = "rufio_native"
version = "1.0.0"
edition = "2021"
publish = false

[dependencies]
magnus = "0.7"
