[package]
name = "gitsy"
version = "0.1.0"
edition = "2021"
publish = false

[dependencies]
anyhow = "1"
crossterm = "0.28"
git2 = "0.19"
ratatui = "0.29"
