[package]
name = "project_tree"
version = "0.1.0"
edition = "2021"
publish = false

[dependencies]
ignore = "*"
colored = "*"
clap = { version = "*", features = ["derive"] }
clipboard = "*"
