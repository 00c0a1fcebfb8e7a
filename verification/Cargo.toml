[package]
name = "dv4rune"
version = "0.1.0"
edition = "2021"
publish = false

[dependencies]
clap = { version = "=4.6.7", features = ["derive"] }
rusqlite = { version = "=0.41.1", features = ["bundled"] }
crossterm = "=0.29.0"
home = "=0.5.12"
tempfile = "=3.27.0"
