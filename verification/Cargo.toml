[package]
name = "path_planning"
version = "0.1.0"
edition = "2021"
publish = false

[dependencies]
geo = "=0.30.0"
pyo3 = "=0.22.6"
