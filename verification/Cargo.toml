[package]
name = "veloxide"
version = "0.1.0"
edition = "2021"
publish = false

[dependencies]
clap = "*"
console = "*"
dialoguer = "*"
indicatif = "*"
walkdir = "*"
