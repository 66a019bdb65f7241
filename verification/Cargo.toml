[package]
name = "issue_dash"
version = "0.1.0"
edition = "2021"
publish = false

[dependencies]
unicode-width = "*"
ratatui = "*"
ratatui-core = "*"
crossterm = "*"
serde = { version = "*", features = ["derive"] }
serde_json = "*"
tui-markdown = "*"
