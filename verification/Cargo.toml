[package]
name = "xpath_reader"
version = "0.1.0"
edition = "2021"
publish = false

[dependencies]
sxd-document = "*"
sxd-xpath = "*"
