[package]
name = "general_mutex"
version = "0.1.0"
edition = "2021"
publish = false

[dependencies]
spin = "*"
critical-section = { version = "*", features = ["std"] }
