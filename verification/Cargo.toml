[package]
name = "stock_forum_tui"
version = "0.1.0"
edition = "2021"
publish = false

[dependencies]
crossterm = "*"
ratatui = "*"
crossbeam-channel = "*"
thiserror = "*"
