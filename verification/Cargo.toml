[package]
name = "mxp"
version = "0.1.0"
edition = "2021"
publish = false

[dependencies]
html-escape = "*"
flagset = "*"
