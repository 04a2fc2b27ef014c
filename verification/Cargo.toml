[package]
name = "my_git_helper"
version = "0.1.0"
edition = "2021"
publish = false

[dependencies]
anyhow = "1"
clap = { version = "4", features = ["derive"] }
colored = "2"
dialoguer = { version = "0.11", features = ["fuzzy-select"] }
