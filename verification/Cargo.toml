[package]
name = "md_render"
version = "0.1.0"
edition = "2021"
publish = false

[dependencies]
pulldown-cmark = "*"
ratatui = "*"
syntect = { version = "*", default-features = false, features = ["default-fancy"] }
