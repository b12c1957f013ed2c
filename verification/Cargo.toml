[package]
name = "taeko"
version = "0.1.0"
edition = "2021"
publish = false

[dependencies]
pulldown-cmark = { version = "*", default-features = false, features = ["html"] }
serde = "1"
serde_json = "1"
serde_yaml = "0.9"
walkdir = "2"
