[package]
name = "expr_kernel"
version = "0.1.0"
edition = "2021"
publish = false

[dependencies]
arrow-arith = "=60.0.0"
arrow-array = "=60.0.0"
arrow-ord = "=60.0.0"
arrow-schema = "=60.0.0"
