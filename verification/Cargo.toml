[package]
name = "derivative_attr"
version = "0.1.0"
edition = "2021"
publish = false

[dependencies]
syn = { version = "0.13", features = ["extra-traits"] }
