[package]
name = "mdbook_test"
version = "0.1.0"
edition = "2021"
publish = false

[dependencies]
toml = "=0.9.8"
mdbook = "=0.4.52"
