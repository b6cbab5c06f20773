[package]
name = "lint_report"
version = "0.1.0"
edition = "2021"
publish = false

[dependencies]
anyhow = "=1.0.104"
html-escape = "=0.2.15"
tree-sitter = "=0.27.1"
tree-sitter-bpf-c = "=0.2.3"
tree-sitter-highlight = "=0.27.1"
