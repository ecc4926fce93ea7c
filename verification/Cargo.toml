[package]
name = "torznab_toolkit"
version = "0.1.0"
edition = "2021"
publish = false

[dependencies]
xml-rs = "0.8"
rocket = "0.5"
