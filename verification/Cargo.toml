[package]
name = "perceptron_rs"
version = "0.1.0"
edition = "2021"
publish = false

[dependencies]
pyo3 = "=0.30.1"

[dev-dependencies]
approx = "=0.5.1"
