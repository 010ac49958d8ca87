[package]
name = "ru_fetch"
version = "0.1.0"
edition = "2021"
publish = false

[dependencies]
ansi_term = "0.12"
dirs = "*"
sysinfo = "0.29"
