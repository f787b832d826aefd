[package]
name = "lzw_bench"
version = "0.1.0"
edition = "2021"
publish = false

[dependencies]
lzw = "0.10"
rustc_version_runtime = "*"
