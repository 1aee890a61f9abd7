[package]
name = "compat_layer"
version = "0.1.0"
edition = "2021"
publish = false

[dependencies]
dashmap = "5"
openxr = "0.17"
ash = "0.37"
libc = "0.2"
libloading = "0.7"
dirs = "4"
