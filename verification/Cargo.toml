[package]
name = "near_cli_rs"
version = "0.1.0"
edition = "2021"
publish = false

[dependencies]
near-primitives = "*"
near-crypto = "*"
color-eyre = "*"
tracing = "*"
strum = { version = "*", features = ["derive"] }
