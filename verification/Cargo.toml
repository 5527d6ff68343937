[package]
name = "gleam_lsp"
version = "0.1.0"
edition = "2021"
publish = false

[dependencies]
lsp-types = "0.94"
smol_str = "*"
termcolor = "1"
debug-ignore = "1"
