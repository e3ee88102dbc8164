[package]
name = "tui_vision"
version = "0.1.0"
edition = "2021"
publish = false

[dependencies]
ratatui-core = "*"
ratatui-widgets = "*"
unicode-width = "*"
