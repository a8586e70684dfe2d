[package]
name = "manim_lint"
version = "0.1.0"
edition = "2021"
publish = false

[dependencies]
rustpython-parser = "0.4"
serde_json = "1"
