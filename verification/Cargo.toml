[package]
name = "kingdom"
version = "0.1.0"
edition = "2021"
publish = false

[dependencies]
uuid = { version = "=1.27.0", features = ["v4"] }
duckdb = { version = "=1.10506.0", default-features = false }
