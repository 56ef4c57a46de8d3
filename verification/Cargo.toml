[package]
name = "isa_ast"
version = "0.1.0"
edition = "2021"
publish = false

[dependencies]
codemap = "*"
num-bigint = "*"
string_cache = "*"
