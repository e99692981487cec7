[package]
name = "fast_float_etna"
version = "0.1.0"
edition = "2021"
publish = false

[dependencies]
crabcheck = "=0.2.0"
hegeltest = "*"
proptest = "=1.12.0"
quickcheck = "=1.1.0"
rand = "=0.9.5"
