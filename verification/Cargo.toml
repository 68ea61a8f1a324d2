[package]
name = "artifact"
version = "0.3.0"
edition = "2021"
publish = false

[dependencies]
time = "0.1"
lazy_static = "1"
log = "0.3"
