[package]
name = "ts_complexity"
version = "0.1.0"
edition = "2021"
publish = false

[dependencies]
tree-sitter = "0.20"
tree-sitter-typescript = "0.20"
