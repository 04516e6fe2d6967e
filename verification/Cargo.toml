[package]
name = "openentry_ext"
version = "0.1.0"
edition = "2021"
publish = false

[dependencies]
tokio = { version = "1", features = ["sync", "rt"] }
async-ffi = "*"
fast-async-mutex = "*"
libloading = "*"
