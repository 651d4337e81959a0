[package]
name = "pyo3_stub_gen"
version = "0.1.0"
edition = "2021"
publish = false

[dependencies]
itertools = "*"
