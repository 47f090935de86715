[package]
name = "resource_values"
version = "0.1.0"
edition = "2021"
publish = false

[dependencies]
starlark = "0.2"
