[package]
name = "cuda_kernels"
version = "0.1.0"
edition = "2021"
publish = false

[dependencies]
cuda-core = "0.4.0"
