[package]
name = "datadescribe"
version = "0.1.0"
edition = "2021"
publish = false

[dependencies]
datafusion = "*"

[dev-dependencies]
tokio = { version = "*", features = ["rt-multi-thread"] }
