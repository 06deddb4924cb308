[package]
name = "teapot"
version = "0.1.0"
edition = "2021"
publish = false

[dependencies]
zerocopy = "0.6"
