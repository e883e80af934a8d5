[package]
name = "shake_chess"
version = "0.1.0"
edition = "2021"
publish = false

[dependencies]
chess = "3.2"
rand = "0.8"
reqwest = { version = "0.12", default-features = false, features = ["blocking"] }
