[package]
name = "gesso_core"
version = "0.1.0"
edition = "2021"
publish = false

[dependencies]
glamour = "=0.18.0"
palette = "=0.7.7"
rustc_apfloat = "*"
