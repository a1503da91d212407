[package]
name = "toonify"
version = "0.1.0"
edition = "2021"
publish = false

[dependencies]
json = "0.12"
reqwest = { version = "0.11", default-features = false, features = ["blocking", "multipart"] }
