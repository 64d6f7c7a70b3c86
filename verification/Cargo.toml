[package]
name = "asciicam"
version = "0.1.0"
edition = "2021"
publish = false

[dependencies]
image = "=0.24.9"
crossterm = "=0.25.0"
tui = "=0.19.0"
nokhwa = { version = "=0.10.11", default-features = false }
