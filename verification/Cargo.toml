[package]
name = "newsbox"
version = "0.1.0"
edition = "2021"
publish = false

[dependencies]
anyhow = "*"
chrono = "*"
crossterm = "*"
open = "*"
ratatui = "*"
reqwest = { version = "*", default-features = false }
rss = "*"
tokio = { version = "*", default-features = false, features = ["rt-multi-thread", "macros", "sync", "time"] }
