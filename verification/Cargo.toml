[package]
name = "rpomodoro"
version = "0.1.0"
edition = "2021"
publish = false

[dependencies]
crossterm = "*"
dirs = "*"

[dev-dependencies]
serde_json = "*"
