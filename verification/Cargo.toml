[package]
name = "wdl_facade"
version = "0.1.0"
edition = "2021"
publish = false

[dependencies]
wdl-ast = "*"
pyo3 = "*"
