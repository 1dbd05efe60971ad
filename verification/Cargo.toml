[package]
name = "zke_ebd"
version = "0.1.0"
edition = "2021"
publish = false

[dependencies]
serial = "0.4"
clap = "2"
