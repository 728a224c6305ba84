[package]
name = "lsp_engine"
version = "0.1.0"
edition = "2021"
publish = false

[dependencies]
camino = "1"
debug-ignore = "1"
ecow = "0.2"
futures = "0.3"
itertools = "0.12"
lsp-types = "0.95"
tracing = "0.1"
