[package]
name = "cargo_format"
version = "0.1.0"
edition = "2021"
publish = false

[dependencies]
color-eyre = "*"
eyre = "*"
tracing = "*"
tracing-error = "*"
tracing-subscriber = { version = "*", features = ["env-filter"] }
which = "*"
