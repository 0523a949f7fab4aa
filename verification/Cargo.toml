[package]
name = "font_index"
version = "0.1.0"
edition = "2021"
publish = false

[dependencies]
swash = { version = "=0.2.10", default-features = false, features = ["std"] }
