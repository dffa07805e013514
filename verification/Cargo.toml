[package]
name = "logic"
version = "0.1.0"
edition = "2021"
publish = false

[dependencies]
rand = "0.9"
iced = { version = "0.14", features = ["canvas"] }
