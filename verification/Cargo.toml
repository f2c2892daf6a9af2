[package]
name = "rbf_interp"
version = "0.1.0"
edition = "2021"
publish = false

[dependencies]
libm = "*"
num-traits = "=0.2.19"
rulinalg = "=0.4.2"
