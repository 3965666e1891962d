[package]
name = "tide_cors"
version = "0.1.0"
edition = "2021"
publish = false

[dependencies]
tide = "*"
futures = "*"
