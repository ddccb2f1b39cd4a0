[package]
name = "uplc_syntax"
version = "0.1.0"
edition = "2021"
publish = false

[dependencies]
rug = { version = "=1.19.2", default-features = false, features = ["integer"] }
gmp-mpfr-sys = { version = "1", default-features = false, features = ["use-system-libs"] }
