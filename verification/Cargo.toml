[package]
name = "ch1115"
version = "0.1.0"
edition = "2021"
publish = false

[dependencies]
display-interface = "*"
embedded-hal = "*"
embedded-graphics-core = "*"
