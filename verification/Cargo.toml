[package]
name = "desync"
version = "0.1.0"
edition = "2021"
publish = false

[dependencies]
futures = "0.3"
num_cpus = "1"
lazy_static = "1"
