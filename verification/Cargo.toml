[package]
name = "layout_tree"
version = "0.1.0"
edition = "2021"
publish = false

[dependencies]
anyhow = "=1.0.104"
ratatui = { version = "=0.30.2", default-features = false, features = ["underline-color"] }
