[package]
name = "fpicker"
version = "0.1.0"
edition = "2021"
publish = false

[dependencies]
copypasta = "*"
crossterm = "*"
ratatui = "*"
termion = "*"
