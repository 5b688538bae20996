[package]
name = "aspen"
version = "0.3.0"
edition = "2021"
publish = false

[dependencies]
log = "0.4"
