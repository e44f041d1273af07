[package]
name = "cleanfloat"
version = "0.1.0"
edition = "2021"
publish = false

[dependencies]
backtrace = "0.3"
failure = "0.1"
failure_derive = "0.1"
lazy_static = "1"
num-traits = "0.2"
