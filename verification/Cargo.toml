[package]
name = "kibrarian"
version = "0.1.0"
edition = "2021"
publish = false

[dependencies]
clap = "*"
fs_extra = "*"
ron = "*"
serde = { version = "*", features = ["derive"] }
