[package]
name = "dynlib"
version = "0.1.0"
edition = "2021"
publish = false

[dependencies]
libloading = "0.8"
kernel32-sys = "0.2"
winapi = "0.2"
