[package]
name = "codescore"
version = "0.1.0"
edition = "2021"
publish = false

[dependencies]
tree-sitter = "*"
tree-sitter-rust = "*"
tree-sitter-go = "*"
tree-sitter-javascript = "*"
tree-sitter-java = "*"
tree-sitter-c = "*"
tree-sitter-cpp = "*"
tree-sitter-typescript = "*"
tree-sitter-zig = "*"
serde_json = "1"
