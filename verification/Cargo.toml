[package]
name = "ballistics_frontend"
version = "0.1.0"
edition = "2021"
publish = false

[dependencies]
ballistics-engine = { version = "=0.36.3", default-features = false, features = ["bridge"] }
nalgebra = "=0.35.0"
numpy = "0.27"
pyo3 = { version = "0.27", features = ["abi3-py39", "extension-module"] }
rayon = "=1.12.0"
