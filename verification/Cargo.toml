[package]
name = "nbenchmark"
version = "2.0.0"
edition = "2021"
publish = false

[dependencies]
clap = { version = "4", features = ["derive"] }
