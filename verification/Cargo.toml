[package]
name = "videocrop"
version = "0.1.0"
edition = "2021"
publish = false

[dependencies]
uuid = { version = "1", features = ["v4"] }
serde = { version = "1", features = ["derive"] }
lazy_static = "1"
reqwest = { version = "0.12", features = ["blocking"] }
zip-extract = "*"
rfd = "*"
