[package]
name = "music"
version = "0.1.0"
edition = "2021"
publish = false

[dependencies]
lofty = "*"
ratatui = "*"
crossterm = "*"
rodio = "*"
