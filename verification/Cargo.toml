[package]
name = "gravily"
version = "0.1.0"
edition = "2021"
publish = false

[dependencies]
image = "=0.25.10"
ratatui = "=0.29.0"
tui-input = "=0.11.1"
whoami = "=1.6.1"
