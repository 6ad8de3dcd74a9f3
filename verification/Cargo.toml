[package]
name = "rbeditor"
version = "0.1.0"
edition = "2021"
publish = false

[dependencies]
tree-sitter = "0.20"
tree-sitter-highlight = "0.20"
tree-sitter-rust = "0.20"
rfd = "0.14"
