[package]
name = "cairo_wasm_interface"
version = "0.1.0"
edition = "2021"
publish = false

[dependencies]
anyhow = "=1.0.104"
cairo-lang-defs = "=2.16.1"
cairo-lang-diagnostics = "=2.16.1"
cairo-lang-filesystem = "=2.16.1"
cairo-lang-sierra = "=2.16.1"
cairo-lang-sierra-generator = "=2.16.1"
cairo-lang-starknet-classes = "=2.16.1"
cairo-lang-test-plugin = "=2.16.1"
cairo-lang-utils = "=2.16.1"
include_dir = "=0.7.4"
salsa = "=0.26.2"
semver = "=1.0.28"
serde_json = "=1.0.154"
