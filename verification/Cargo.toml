[package]
name = "grepfuzz"
version = "0.1.0"
edition = "2021"
publish = false

[dependencies]
ansi_term = "0.12"
atty = "0.2"
clap = { version = "4", features = ["derive"] }
image = "0.25"
opencv = "*"
rexif = "0.7"
serde = { version = "1", features = ["derive"] }
toml = "0.8"
