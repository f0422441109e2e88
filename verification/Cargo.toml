[package]
name = "html2text_nif"
version = "0.1.0"
edition = "2021"
publish = false

[dependencies]
html2text = "*"
rustler = "*"
