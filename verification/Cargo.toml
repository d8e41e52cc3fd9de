[package]
name = "di_axum"
version = "0.2.0"
edition = "2021"
publish = false

[dependencies]
axum = "0.7"
more-di = { version = "3", features = ["async"] }
