[package]
name = "panic-serial"
version = "0.1.0"
edition = "2021"
publish = false

[dependencies]
ufmt = { version = "0.2", features = ["std"] }
