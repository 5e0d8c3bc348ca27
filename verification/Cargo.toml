[package]
name = "io_providers"
version = "0.1.0"
edition = "2021"
publish = false

[dependencies]
tempfile = "3"
