[package]
name = "eddit_header"
version = "0.1.0"
edition = "2021"
publish = false

[dependencies]
gtk = "0.8"
gio = "0.8"
