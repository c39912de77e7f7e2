[package]
name = "rust_reduce"
version = "0.1.0"
edition = "2021"
publish = false

[dependencies]
clap = "*"
quote = "*"
serde = "*"
serde_derive = "*"
syn = { version = "*", features = ["full", "extra-traits"] }
toml = "*"
