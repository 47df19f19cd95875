[package]
name = "kwis"
version = "0.1.0"
edition = "2021"
publish = false

[dependencies]
ansi-to-tui = "=7.0.0"
anyhow = "=1.0.104"
crossterm = "=0.28.1"
git2 = { version = "=0.19.0", default-features = false }
notify-rust = "4"
ratatui = "=0.29.0"
