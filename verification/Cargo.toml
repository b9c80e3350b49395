[package]
name = "ts_declarations"
version = "0.1.0"
edition = "2021"
publish = false

[dependencies]
heck = "0.4"
itertools = "0.10"
