[package]
name = "tmatrix"
version = "0.1.0"
edition = "2021"
publish = false

[dependencies]
nalgebra = "0.33"
ndarray = "0.16"
num-complex = "0.4"
numpy = "0.23"
once_cell = "1"
pyo3 = { version = "0.23", features = ["extension-module"] }
rayon = "1"
