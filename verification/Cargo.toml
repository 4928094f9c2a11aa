[package]
name = "cpython_api_core"
version = "0.1.0"
edition = "2021"
publish = false

[dependencies]
proc-macro2 = "1"
quote = "1"
shlex = "1"
syn = { version = "2", features = ["full"] }
