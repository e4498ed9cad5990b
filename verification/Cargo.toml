[package]
name = "ggrep"
version = "0.1.0"
edition = "2021"
publish = false

[dependencies]
regex = "1"
ansi_term = "0.12"
walkdir = "2"
atty = "0.2"
clap = { version = "4", features = ["derive"] }
