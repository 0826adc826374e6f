[package]
name = "randl"
version = "0.1.0"
edition = "2021"
publish = false

[dependencies]
rand = "*"
clap = { version = "*", features = ["derive"] }
dirs = "*"
reqwest = { version = "*", default-features = false, features = ["blocking"] }
asky = "*"
size = "*"
