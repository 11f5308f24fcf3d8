[package]
name = "dlparkimg"
version = "0.1.0"
edition = "2021"
publish = false

[dependencies]
image = "=0.25.10"
dlpark = { version = "=0.8.0", features = ["pyo3"] }
pyo3 = "=0.29.3"
