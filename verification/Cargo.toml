[package]
name = "tab_bar"
version = "0.1.0"
edition = "2021"
publish = false

[dependencies]
unicode-width = "*"
ansi_term = "*"
zellij-tile = "*"
zellij-tile-utils = "*"
