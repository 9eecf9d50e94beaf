[package]
name = "rustix"
version = "0.1.0"
edition = "2021"
publish = false

[dependencies]
io-lifetimes = "1"
linux-raw-sys = "0.3"
once_cell = "1"
