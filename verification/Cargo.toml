[package]
name = "plugin_suites"
version = "0.1.0"
edition = "2021"
publish = false

[dependencies]
after-effects-sys = "*"
premiere-sys = "*"
nalgebra = "*"
num_enum = "*"
