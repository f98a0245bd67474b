[package]
name = "fixed_vectors"
version = "0.1.0"
edition = "2021"
publish = false

[dependencies]
libm = "0.2"
num-traits = "0.2"
