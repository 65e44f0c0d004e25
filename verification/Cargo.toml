[package]
name = "unpacker"
version = "0.1.0"
edition = "2021"
publish = false

[dependencies]
xz2 = "*"
tar = "*"
clap = { version = "*", features = ["derive"] }
indicatif = "*"
