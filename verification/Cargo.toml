[package]
name = "brush"
version = "0.1.0"
edition = "2021"
publish = false

[dependencies]
clap = { version = "4", features = ["derive"] }
pyo3 = { version = "0.22", features = ["abi3-py39", "extension-module"] }
tempfile = "3"
tokio = { version = "1", features = ["rt-multi-thread", "net", "time"] }
