[package]
name = "lmrs"
version = "0.1.0"
edition = "2021"
publish = false

[dependencies]
cudarc = { version = "=0.19.10", features = ["cuda-12080", "f16"] }
half = "=2.7.1"
smallvec = "=1.16.4"
thiserror = "=2.0.21"
walkdir = "=2.5.0"
