[package]
name = "ntex_helmet"
version = "0.1.0"
edition = "2021"
publish = false

[dependencies]
ntex = { version = "=0.7.17", features = ["tokio"] }
ntex-http = "=0.1.13"
