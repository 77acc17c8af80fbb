[package]
name = "pliron_python"
version = "0.1.0"
edition = "2021"
publish = false

[dependencies]
syn = { version = "2", features = ["full", "parsing", "printing", "extra-traits"] }
proc-macro2 = "1"
quote = "1"
pyo3 = { version = "0.23", features = ["abi3-py39"] }
