[package]
name = "piet-cairo"
version = "0.1.0"
edition = "2021"
publish = false

[dependencies]
cairo-rs = { version = "=0.8.1", default-features = false }
piet = "=0.0.11"
