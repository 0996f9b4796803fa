[package]
name = "herdr"
version = "0.1.0"
edition = "2021"
publish = false

[dependencies]
ratatui = "*"
tracing = "*"
unicode-width = "*"
