[package]
name = "native_api_1c_core"
version = "0.1.0"
edition = "2021"
publish = false

[dependencies]
chrono = "0.4"
