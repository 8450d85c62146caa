[package]
name = "sniffnet"
version = "0.1.0"
edition = "2021"
publish = false

[dependencies]
iced = { version = "0.10", default-features = false, features = ["lazy"] }
