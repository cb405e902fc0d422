[package]
name = "pinentry_engine"
version = "0.1.0"
edition = "2021"
publish = false

[dependencies]
async-process = "*"
async-std = { version = "*", features = ["attributes"] }
clap = { version = "*", features = ["derive"] }
percent-encoding-rfc3986 = "*"
ron = "*"
serde = { version = "*", features = ["derive"] }
