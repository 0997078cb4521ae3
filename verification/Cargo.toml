[package]
name = "molcv"
version = "0.1.0"
edition = "2021"
publish = false

[dependencies]
bytemuck = "1"
clap = { version = "4", features = ["derive"] }
flume = "0.11"
ndarray = "0.15"
ndarray-npy = "0.8"
numpy = "0.21"
pdbtbx = "0.11"
pollster = "0.3"
pyo3 = { version = "0.21", features = ["abi3-py38", "extension-module"] }
wgpu = "0.19"
