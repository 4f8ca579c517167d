[package]
name = "futures_fs"
version = "0.1.0"
edition = "2021"
publish = false

[dependencies]
bytes = "0.4"
futures = "0.1"
futures-cpupool = "0.1"
