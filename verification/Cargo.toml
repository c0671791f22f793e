[package]
name = "sqlite-http"
version = "0.1.0"
edition = "2021"
publish = false

[dependencies]
reqwest = { version = "0.11", features = ["blocking"] }
sqlite-loadable = "0.0.5"
