[package]
name = "kadai"
version = "0.1.0"
edition = "2021"
publish = false

[dependencies]
textwrap = "0.16"
tui = "0.19"
crossterm = "0.25"
serde = { version = "1", features = ["derive"] }
serde_json = "1"
