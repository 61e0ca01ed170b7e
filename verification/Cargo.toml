[package]
name = "iui"
version = "0.3.0"
edition = "2021"
publish = false

[dependencies]
libc = "0.2"
thiserror = "1"
