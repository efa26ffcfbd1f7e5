[package]
name = "kantorovich"
version = "0.1.0"
edition = "2021"
publish = false

[dependencies]
faer = "*"
rayon = "*"
thiserror = "*"
pyo3 = "*"
numpy = "*"
