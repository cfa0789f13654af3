[package]
name = "listen_core"
version = "0.1.0"
edition = "2021"
publish = false

[dependencies]
once_cell = "1"
winapi = { version = "0.3", features = ["winuser"] }
