[package]
name = "ido"
version = "0.1.0"
edition = "2021"
publish = false

[dependencies]
num = "0.4"
anchor-lang = "0.24.2"
anchor-spl = "0.24.2"
