[package]
name = "gitclean"
version = "0.1.0"
edition = "2021"
publish = false

[dependencies]
walkdir = "2"
crossterm = "0.27"
ratatui = "0.26"

[dev-dependencies]
tempfile = "3"
fs-err = "2"
