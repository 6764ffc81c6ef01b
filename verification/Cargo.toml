[package]
name = "no_useless_length_check"
version = "0.1.0"
edition = "2021"
publish = false

[dependencies]
itertools = "=0.15.0"
oxc_ast = "0.4"
oxc_span = "0.4"
oxc_syntax = "0.4"
oxc_diagnostics = "0.4"

[dev-dependencies]
oxc_allocator = "0.4"
oxc_parser = "0.4"
